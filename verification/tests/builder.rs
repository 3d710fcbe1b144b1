use near_tx::add::{Action, AddAction, CliAction, CliAddAction, CliFullAccessType, FullAccessType};
use near_tx::chain::{NextAction, SkipAction};
use near_tx::model::{AccessKeyPermission, Transaction, TxAction};
use near_tx::receiver::{CliReceiver, CliSendTo, Receiver, SendTo};
use near_tx::sign::{CliSignPrivateKey, SignPrivateKey};

fn test_signer(tag: &str) -> SignPrivateKey {
    let secret = near_crypto::SecretKey::from_seed(near_crypto::KeyType::ED25519, tag);
    SignPrivateKey {
        signer_public_key: secret.public_key().to_string(),
        signer_secret_key: secret.to_string(),
        submit: None,
    }
}

fn empty_draft(signer_id: &str) -> Transaction {
    Transaction {
        signer_id: signer_id.to_string(),
        public_key: String::new(),
        nonce: 0,
        receiver_id: String::new(),
        block_hash: vec![0u8; 32],
        actions: Vec::new(),
    }
}

#[test]
fn receiver_process_sets_receiver_and_builds_chain() {
    let signer = test_signer("receiver-seed");
    let receiver = Receiver {
        receiver_account_id: "bob".to_string(),
        action: NextAction::Skip(SkipAction { sign_option: signer.clone() }),
    };
    let (draft, end_signer) = SendTo::send_to(receiver).process(empty_draft("alice"));
    assert_eq!(draft.receiver_id, "bob");
    assert_eq!(draft.signer_id, "alice");
    assert_eq!(draft.actions, Vec::<TxAction>::new());
    assert_eq!(end_signer, signer);
}

#[test]
fn receiver_from_cli_prefers_given_fields() {
    let signer = test_signer("cli-seed");
    let given = CliReceiver {
        receiver_account_id: Some("carol".to_string()),
        action: None,
    };
    let receiver = Receiver::from_cli(
        given,
        "fallback".to_string(),
        NextAction::Skip(SkipAction { sign_option: signer.clone() }),
    );
    assert_eq!(receiver.receiver_account_id, "carol");

    let missing = CliSendTo::Receiver(CliReceiver { receiver_account_id: None, action: None });
    let SendTo::Receiver(filled) = SendTo::from_cli(
        missing,
        "fallback".to_string(),
        NextAction::Skip(SkipAction { sign_option: signer }),
    );
    assert_eq!(filled.receiver_account_id, "fallback");
}

#[test]
fn add_action_grants_a_full_access_key() {
    let signer = test_signer("add-seed");
    let public_key = signer.signer_public_key.clone();
    let add = AddAction {
        action: Action::AccessKey(FullAccessType { sign_option: signer.clone() }),
    };
    let (draft, end_signer) = add.process(11, empty_draft("alice"), public_key.clone());
    assert_eq!(draft.actions.len(), 1);
    match &draft.actions[0] {
        TxAction::AddKey { public_key: granted, access_key } => {
            assert_eq!(granted, &public_key);
            assert_eq!(access_key.nonce, 11);
            assert_eq!(access_key.permission, AccessKeyPermission::FullAccess);
        },
        other => panic!("expected an added key, got {:?}", other),
    }
    assert_eq!(end_signer, signer);
}

#[test]
fn add_action_from_cli_fills_missing_fields() {
    let signer = test_signer("fill-seed");
    let fallback = Action::AccessKey(FullAccessType { sign_option: signer.clone() });
    let filled = AddAction::from_cli(
        CliAddAction { action: None },
        fallback,
        signer.clone(),
    );
    let Action::AccessKey(full) = filled.action;
    assert_eq!(full.sign_option, signer);

    let other = test_signer("other-seed");
    let given = AddAction::from_cli(
        CliAddAction {
            action: Some(CliAction::AccessKey(CliFullAccessType { sign_option: None })),
        },
        Action::AccessKey(FullAccessType { sign_option: signer }),
        other.clone(),
    );
    let Action::AccessKey(full) = given.action;
    assert_eq!(full.sign_option, other);
}

#[test]
fn sign_private_key_from_cli_fills_missing_keys() {
    let signer = test_signer("from-cli-seed");
    let filled = SignPrivateKey::from_cli(
        CliSignPrivateKey {
            signer_public_key: Some(signer.signer_public_key.clone()),
            signer_secret_key: None,
            submit: None,
        },
        "unused".to_string(),
        signer.signer_secret_key.clone(),
    );
    assert_eq!(filled, signer);
}
