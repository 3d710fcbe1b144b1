use near_tx::codec::{decode_signed_transaction, encode_signed_transaction, encode_transaction};
use near_tx::model::{
    AccessKey, AccessKeyPermission, FunctionCallPermission, SignedTransaction, Transaction,
    TxAction,
};
use near_tx::text::{contains_char, normalize_method_names_input, parse_method_names, str_contains};

fn rich_signed_transaction() -> SignedTransaction {
    let permission = AccessKeyPermission::FunctionCall(FunctionCallPermission {
        allowance: Some(170141183460469231731687303715884105727u128),
        receiver_id: "market.near".to_string(),
        method_names: vec!["get".to_string(), "sätt".to_string(), String::new()],
    });
    let transaction = Transaction {
        signer_id: "alice".to_string(),
        public_key: "ed25519:fake-key-text".to_string(),
        nonce: 0x0102030405060708,
        receiver_id: "bob".to_string(),
        block_hash: (0u8..32).collect(),
        actions: vec![
            TxAction::CreateAccount,
            TxAction::AddKey {
                public_key: "ed25519:another-key".to_string(),
                access_key: AccessKey { nonce: 42, permission },
            },
        ],
    };
    SignedTransaction { transaction, signature: "ed25519:fake-signature".to_string() }
}

#[test]
fn encode_then_decode_gives_back_the_same_value() {
    let signed = rich_signed_transaction();
    let bytes = encode_signed_transaction(&signed);
    let decoded = decode_signed_transaction(&bytes).unwrap();
    assert_eq!(decoded, signed);
}

#[test]
fn encode_starts_with_length_prefixed_signer() {
    let signed = rich_signed_transaction();
    let bytes = encode_transaction(&signed.transaction);
    assert_eq!(&bytes[0..8], &[5, 0, 0, 0, 0, 0, 0, 0]);
    assert_eq!(&bytes[8..13], b"alice");
}

#[test]
fn truncated_buffer_does_not_decode() {
    let signed = rich_signed_transaction();
    let mut bytes = encode_signed_transaction(&signed);
    bytes.pop();
    assert!(decode_signed_transaction(&bytes).is_none());
    assert!(decode_signed_transaction(&Vec::new()).is_none());
}

#[test]
fn trailing_bytes_do_not_decode() {
    let signed = rich_signed_transaction();
    let mut bytes = encode_signed_transaction(&signed);
    bytes.push(0);
    assert!(decode_signed_transaction(&bytes).is_none());
}

#[test]
fn str_contains_finds_the_marker() {
    assert!(str_contains("Error: Timeout while waiting", "Timeout"));
    assert!(str_contains("Timeout", "Timeout"));
    assert!(!str_contains("connection refused", "Timeout"));
    assert!(!str_contains("time out", "Timeout"));
    assert!(str_contains("anything", ""));
}

#[test]
fn contains_char_finds_a_quote() {
    assert!(contains_char("a\"b", '"'));
    assert!(!contains_char("plain", '"'));
}

#[test]
fn parse_method_names_splits_and_keeps_order() {
    assert_eq!(parse_method_names(""), Vec::<String>::new());
    assert_eq!(parse_method_names("get"), vec!["get".to_string()]);
    assert_eq!(
        parse_method_names("get,set,del"),
        vec!["get".to_string(), "set".to_string(), "del".to_string()]
    );
    assert_eq!(parse_method_names("a,,b"), vec![
        "a".to_string(),
        String::new(),
        "b".to_string(),
    ]);
}

#[test]
fn quoted_method_name_answer_is_discarded() {
    assert_eq!(normalize_method_names_input("\"get\""), Vec::<String>::new());
    assert_eq!(normalize_method_names_input(""), Vec::<String>::new());
    assert_eq!(normalize_method_names_input("get,set"), vec![
        "get".to_string(),
        "set".to_string(),
    ]);
}
