use vstd::prelude::*;

use crate::codec::{enc_signed, encode_signed_transaction, encode_transaction};
use crate::ext::{
    base64_of, check_signing_key, derive_public_key, derived_public_key_of, sha256, sign_digest,
    signable_key, to_base64,
};
use crate::model::{SignedTransaction, Transaction, TransactionView};
use crate::submit::Submit;

verus! {

// ---------------------------------------------------------------------------
// Signing a finalized draft with a supplied key pair.
//
// Coherence of the pair — the public key derivable from the secret key must
// equal the declared one — is checked here, never assumed.  In online mode
// the committed nonce and reference block come from the most recent resolver
// query; in offline mode the caller-supplied values already in the draft are
// trusted as they stand.
// ---------------------------------------------------------------------------

/// Key-pair input as collected from the operator; a missing field is filled
/// by the surrounding interface before signing.
pub struct CliSignPrivateKey {
    pub signer_public_key: Option<String>,
    pub signer_secret_key: Option<String>,
    pub submit: Option<Submit>,
}

/// A key pair in canonical text form, with the chosen submit mode.
#[derive(Debug, Clone, PartialEq, Eq)]
pub struct SignPrivateKey {
    pub signer_public_key: String,
    pub signer_secret_key: String,
    pub submit: Option<Submit>,
}

/// Why signing was refused.
#[derive(Debug, Clone, Copy, PartialEq, Eq, Structural)]
pub enum SignError {
    KeyMismatch,
}

/// What replay-protection state signing runs against: the draft's own values
/// (offline), or a freshly resolved (nonce, reference block) pair (online).
pub enum NonceResolution {
    Offline,
    Online { observed_nonce: u64, block_hash: Vec<u8> },
}

/// The transaction fields committed at signing time.  Offline keeps the
/// caller-supplied nonce and reference block; online commits the observed
/// nonce plus one and the resolved reference block.  Both set the public key.
pub open spec fn finalized_view(
    t: TransactionView,
    public_key: Seq<char>,
    resolution: NonceResolution,
) -> TransactionView {
    match resolution {
        NonceResolution::Offline => TransactionView { public_key, ..t },
        NonceResolution::Online { observed_nonce, block_hash } => TransactionView {
            public_key,
            nonce: (observed_nonce + 1) as u64,
            block_hash: block_hash@,
            ..t
        },
    }
}

/// Computes the nonce to commit from the last observed on-chain value.
pub fn next_nonce(observed: u64) -> (r: Option<u64>)
    ensures
        observed < u64::MAX ==> r == Some((observed + 1) as u64),
        observed == u64::MAX ==> r is None,
{
    if observed < u64::MAX {
        Some(observed + 1)
    } else {
        None
    }
}

/// Whether a key pair is coherent and usable: the public key derived from the
/// secret key equals the declared one, and the key material can sign.
pub open spec fn spec_key_pair_valid(public_key: Seq<char>, secret_key: Seq<char>) -> bool {
    derived_public_key_of(secret_key) == Some(public_key) && signable_key(secret_key)
}

/// Checks key-pair coherence: the public key re-derived from the secret key
/// must equal the declared one, and the key material must be usable.
pub fn key_pair_coherent(public_key: &String, secret_key: &String) -> (r: bool)
    ensures
        r == spec_key_pair_valid(public_key@, secret_key@),
{
    let derived_matches = match derive_public_key(secret_key.as_str()) {
        Some(derived) => derived == *public_key,
        None => false,
    };
    derived_matches && check_signing_key(secret_key.as_str())
}

/// Law: offline signing commits the caller-supplied nonce untouched — no
/// resolver value enters the offline path at all — while online signing
/// always commits the observed nonce plus one and the resolved block.
pub proof fn lemma_nonce_commitment(
    t: TransactionView,
    public_key: Seq<char>,
    observed_nonce: u64,
    block_hash: Vec<u8>,
)
    requires
        observed_nonce < u64::MAX,
    ensures
        finalized_view(t, public_key, NonceResolution::Offline).nonce == t.nonce,
        finalized_view(t, public_key, NonceResolution::Offline).block_hash == t.block_hash,
        finalized_view(
            t,
            public_key,
            NonceResolution::Online { observed_nonce, block_hash },
        ).nonce == observed_nonce + 1,
        finalized_view(
            t,
            public_key,
            NonceResolution::Online { observed_nonce, block_hash },
        ).block_hash == block_hash@,
{
}

impl SignPrivateKey {
    /// Fills each missing field from the value the surrounding interface
    /// collected for it.
    pub fn from_cli(
        item: CliSignPrivateKey,
        collected_public_key: String,
        collected_secret_key: String,
    ) -> (r: SignPrivateKey)
        ensures
            r.signer_public_key@ == (match item.signer_public_key {
                Some(k) => k@,
                None => collected_public_key@,
            }),
            r.signer_secret_key@ == (match item.signer_secret_key {
                Some(k) => k@,
                None => collected_secret_key@,
            }),
            r.submit == item.submit,
    {
        let signer_public_key = match item.signer_public_key {
            Some(cli_public_key) => cli_public_key,
            None => collected_public_key,
        };
        let signer_secret_key = match item.signer_secret_key {
            Some(cli_secret_key) => cli_secret_key,
            None => collected_secret_key,
        };
        SignPrivateKey { signer_public_key, signer_secret_key, submit: item.submit }
    }

    /// Signs the finalized draft.  Refused — and only refused — when the key
    /// pair is incoherent or unusable.  On success the signed transaction
    /// carries exactly the finalized fields, and the canonical transmissible
    /// rendering is produced alongside it.
    pub fn process(
        self,
        prepopulated_unsigned_transaction: Transaction,
        resolution: NonceResolution,
    ) -> (r: Result<(SignedTransaction, String), SignError>)
        requires
            resolution matches NonceResolution::Online { observed_nonce, .. }
                ==> observed_nonce < u64::MAX,
        ensures
            r is Ok <==> spec_key_pair_valid(self.signer_public_key@, self.signer_secret_key@),
            r matches Ok(p) ==> {
                &&& p.0.transaction@ == finalized_view(
                    prepopulated_unsigned_transaction@,
                    self.signer_public_key@,
                    resolution,
                )
                &&& p.1@ == base64_of(enc_signed(p.0@))
            },
            r matches Err(e) ==> e == SignError::KeyMismatch,
    {
        if !key_pair_coherent(&self.signer_public_key, &self.signer_secret_key) {
            return Err(SignError::KeyMismatch);
        }
        let unsigned_transaction = match resolution {
            NonceResolution::Offline => Transaction {
                public_key: self.signer_public_key.clone(),
                ..prepopulated_unsigned_transaction
            },
            NonceResolution::Online { observed_nonce, block_hash } => Transaction {
                public_key: self.signer_public_key.clone(),
                nonce: observed_nonce + 1,
                block_hash,
                ..prepopulated_unsigned_transaction
            },
        };
        proof {
            assert(unsigned_transaction@ =~= finalized_view(
                prepopulated_unsigned_transaction@,
                self.signer_public_key@,
                resolution,
            ));
        }
        let transaction_bytes = encode_transaction(&unsigned_transaction);
        let digest = sha256(&transaction_bytes);
        let signature = sign_digest(self.signer_secret_key.as_str(), &digest);
        let signed_transaction = SignedTransaction { transaction: unsigned_transaction, signature };
        let signed_bytes = encode_signed_transaction(&signed_transaction);
        let serialize_to_base64 = to_base64(&signed_bytes);
        Ok((signed_transaction, serialize_to_base64))
    }
}

} // verus!
