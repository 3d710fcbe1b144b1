use near_tx::add::FullAccessType;
use near_tx::chain::{
    ActionSubcommand, CliFunctionCallType, CreateAccountAction, FunctionCallType, NextAction,
    SkipAction,
};
use near_tx::model::{AccessKey, AccessKeyPermission, Transaction, TxAction};
use near_tx::sign::{
    key_pair_coherent, next_nonce, NonceResolution, SignError, SignPrivateKey,
};
use near_tx::submit::{
    BroadcastFailure, BroadcastOutcome, Submission, Submit, SubmitStep,
};

fn seeded_keys(seed: &str) -> (String, String) {
    let secret = near_crypto::SecretKey::from_seed(near_crypto::KeyType::ED25519, seed);
    (secret.public_key().to_string(), secret.to_string())
}

fn signer_from_seed(seed: &str) -> SignPrivateKey {
    let (public_key, secret_key) = seeded_keys(seed);
    SignPrivateKey {
        signer_public_key: public_key,
        signer_secret_key: secret_key,
        submit: None,
    }
}

fn empty_draft(signer_id: &str) -> Transaction {
    Transaction {
        signer_id: signer_id.to_string(),
        public_key: String::new(),
        nonce: 0,
        receiver_id: String::new(),
        block_hash: vec![0u8; 32],
        actions: Vec::new(),
    }
}

fn skip(sign_option: SignPrivateKey) -> NextAction {
    NextAction::Skip(SkipAction { sign_option })
}

#[test]
fn full_access_then_create_account_in_order() {
    let (public_key, _) = seeded_keys("alice-key");
    let signer = signer_from_seed("alice-key");
    let draft = empty_draft("alice");
    let (draft, chained_signer) = FullAccessType { sign_option: signer }.process(
        7,
        draft,
        public_key.clone(),
    );
    let create = CreateAccountAction { next_action: Box::new(skip(chained_signer)) };
    let (done, _) = create.process(draft);
    assert_eq!(done.actions.len(), 2);
    assert_eq!(
        done.actions[0],
        TxAction::AddKey {
            public_key,
            access_key: AccessKey { nonce: 7, permission: AccessKeyPermission::FullAccess },
        }
    );
    assert_eq!(done.actions[1], TxAction::CreateAccount);
    assert_eq!(done.signer_id, "alice");
}

#[test]
fn chained_appends_accumulate_in_order() {
    let signer = signer_from_seed("chain-key");
    let (public_key, _) = seeded_keys("chain-key");
    let function_call = FunctionCallType {
        allowance: Some(250),
        receiver_id: "market.near".to_string(),
        method_names: vec!["get".to_string()],
        next_action: Box::new(skip(signer.clone())),
    };
    let inner = CreateAccountAction {
        next_action: Box::new(NextAction::AddAction(ActionSubcommand::AddAccessKey(Box::new(
            near_tx::chain::AddAccessKeyAction {
                public_key: public_key.clone(),
                nonce: 3,
                function_call,
            },
        )))),
    };
    let chain = NextAction::AddAction(ActionSubcommand::CreateAccount(Box::new(inner)));
    let (done, end_signer) = chain.process(empty_draft("alice"));
    assert_eq!(done.actions.len(), 2);
    assert_eq!(done.actions[0], TxAction::CreateAccount);
    assert!(matches!(done.actions[1], TxAction::AddKey { .. }));
    assert_eq!(end_signer, signer);
}

#[test]
fn empty_method_name_input_means_unrestricted() {
    let signer = signer_from_seed("fc-key");
    let item = CliFunctionCallType {
        allowance: None,
        receiver_id: Some("market.near".to_string()),
        method_names: Some(String::new()),
        next_action: None,
    };
    let fc = FunctionCallType::from_cli(
        item,
        Some(10),
        "fallback.near".to_string(),
        vec!["unused".to_string()],
        skip(signer),
    );
    assert_eq!(fc.method_names, Vec::<String>::new());
    assert_eq!(fc.receiver_id, "market.near");
    assert_eq!(fc.allowance, Some(10));
}

#[test]
fn method_name_input_splits_at_commas() {
    let signer = signer_from_seed("fc-key-2");
    let item = CliFunctionCallType {
        allowance: Some(5),
        receiver_id: None,
        method_names: Some("get,set".to_string()),
        next_action: None,
    };
    let fc = FunctionCallType::from_cli(
        item,
        None,
        "fallback.near".to_string(),
        Vec::new(),
        skip(signer),
    );
    assert_eq!(fc.method_names, vec!["get".to_string(), "set".to_string()]);
    assert_eq!(fc.receiver_id, "fallback.near");
    assert_eq!(fc.allowance, Some(5));
}

#[test]
fn online_signing_commits_observed_nonce_plus_one() {
    let signer = signer_from_seed("nonce-seed");
    let draft = empty_draft("alice");
    let resolution = NonceResolution::Online { observed_nonce: 41, block_hash: vec![9u8; 32] };
    let (signed, _) = signer.process(draft, resolution).unwrap();
    assert_eq!(signed.transaction.nonce, 42);
    assert_eq!(signed.transaction.block_hash, vec![9u8; 32]);
}

#[test]
fn offline_signing_keeps_caller_supplied_state() {
    let signer = signer_from_seed("offline-seed");
    let (public_key, _) = seeded_keys("offline-seed");
    let mut draft = empty_draft("alice");
    draft.nonce = 5;
    draft.block_hash = vec![3u8; 32];
    let (signed, _) = signer.process(draft, NonceResolution::Offline).unwrap();
    assert_eq!(signed.transaction.nonce, 5);
    assert_eq!(signed.transaction.block_hash, vec![3u8; 32]);
    assert_eq!(signed.transaction.public_key, public_key);
}

#[test]
fn mismatched_key_pair_refuses_signing() {
    let (_, secret_key) = seeded_keys("one-seed");
    let (other_public, _) = seeded_keys("another-seed");
    assert!(!key_pair_coherent(&other_public, &secret_key));
    let signer = SignPrivateKey {
        signer_public_key: other_public,
        signer_secret_key: secret_key,
        submit: None,
    };
    let outcome = signer.process(empty_draft("alice"), NonceResolution::Offline);
    assert_eq!(outcome.unwrap_err(), SignError::KeyMismatch);
}

#[test]
fn coherent_key_pair_is_accepted() {
    let (public_key, secret_key) = seeded_keys("good-seed");
    assert!(key_pair_coherent(&public_key, &secret_key));
    assert!(!key_pair_coherent(&public_key, &"not a key".to_string()));
}

#[test]
fn signature_verifies_over_canonical_digest() {
    let signer = signer_from_seed("sig-seed");
    let (public_key, _) = seeded_keys("sig-seed");
    let (signed, _) = signer.process(empty_draft("alice"), NonceResolution::Offline).unwrap();
    let transaction_bytes = near_tx::codec::encode_transaction(&signed.transaction);
    let digest = near_primitives::hash::hash(&transaction_bytes);
    let signature: near_crypto::Signature = signed.signature.parse().unwrap();
    let parsed_public_key: near_crypto::PublicKey = public_key.parse().unwrap();
    assert!(signature.verify(digest.as_ref(), &parsed_public_key));
}

#[test]
fn rendering_base64_matches_canonical_bytes() {
    let signer = signer_from_seed("b64-seed");
    let (signed, base64) = signer.process(empty_draft("alice"), NonceResolution::Offline).unwrap();
    let rendering = Submit::Display.process_offline(signed);
    let bytes = near_tx::codec::encode_signed_transaction(&rendering.signed_transaction);
    let expected = near_primitives::serialize::to_base64(&bytes);
    assert_eq!(rendering.serialize_to_base64, expected);
    assert_eq!(base64, rendering.serialize_to_base64);
}

#[test]
fn online_send_prepares_a_submission_and_display_does_not() {
    let signer = signer_from_seed("send-seed");
    let (signed, base64) = signer.process(empty_draft("alice"), NonceResolution::Offline).unwrap();
    let (_, sending) = Submit::Send.process_online(signed.clone());
    assert_eq!(sending.unwrap().attempt_payload(), base64);
    let (rendering, showing) = Submit::Display.process_online(signed);
    assert!(showing.is_none());
    assert_eq!(rendering.serialize_to_base64, base64);
}

#[test]
fn timeout_failure_retries_identical_payload() {
    let signer = signer_from_seed("retry-seed");
    let (signed, _) = signer.process(empty_draft("alice"), NonceResolution::Offline).unwrap();
    let submission = Submission::new(&signed);
    let payload = submission.attempt_payload();
    let outcome = BroadcastOutcome::Failed(BroadcastFailure {
        detail: Some("Timeout: the node is busy".to_string()),
    });
    match submission.on_outcome(outcome) {
        SubmitStep::Retry(next_payload) => assert_eq!(next_payload, payload),
        other => panic!("expected a retry, got {:?}", other),
    }
}

#[test]
fn non_timeout_failure_is_fatal_without_retry() {
    let signer = signer_from_seed("fatal-seed");
    let (signed, _) = signer.process(empty_draft("alice"), NonceResolution::Offline).unwrap();
    let submission = Submission::new(&signed);
    let outcome = BroadcastOutcome::Failed(BroadcastFailure {
        detail: Some("invalid signature".to_string()),
    });
    match submission.on_outcome(outcome) {
        SubmitStep::Fatal(failure) => {
            assert_eq!(failure.detail, Some("invalid signature".to_string()));
        },
        other => panic!("expected a fatal failure, got {:?}", other),
    }
}

#[test]
fn failure_without_detail_is_fatal() {
    let signer = signer_from_seed("no-detail-seed");
    let (signed, _) = signer.process(empty_draft("alice"), NonceResolution::Offline).unwrap();
    let submission = Submission::new(&signed);
    let outcome = BroadcastOutcome::Failed(BroadcastFailure { detail: None });
    assert!(matches!(submission.on_outcome(outcome), SubmitStep::Fatal(_)));
}

#[test]
fn commit_outcome_is_accepted() {
    let signer = signer_from_seed("commit-seed");
    let (signed, _) = signer.process(empty_draft("alice"), NonceResolution::Offline).unwrap();
    let submission = Submission::new(&signed);
    let outcome = BroadcastOutcome::Committed { transaction_id: "tx-hash-1".to_string() };
    match submission.on_outcome(outcome) {
        SubmitStep::Done(id) => assert_eq!(id, "tx-hash-1"),
        other => panic!("expected acceptance, got {:?}", other),
    }
}

#[test]
fn next_nonce_increments_and_refuses_overflow() {
    assert_eq!(next_nonce(41), Some(42));
    assert_eq!(next_nonce(0), Some(1));
    assert_eq!(next_nonce(u64::MAX), None);
}
