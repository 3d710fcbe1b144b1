use vstd::prelude::*;

verus! {

// ---------------------------------------------------------------------------
// The boundary to the cryptographic and encoding primitives.
//
// Key derivation, signing, hashing and base64 are consumed as opaque
// capabilities.  Each wrapper below is believed, not proved; its contract
// states only what the called crate's source shows.
// ---------------------------------------------------------------------------

/// The public key derivable from a secret key given in canonical text form,
/// itself in canonical text form; `None` when the text does not parse as a
/// secret key.  Parsing and derivation depend on the text alone.
pub uninterp spec fn derived_public_key_of(secret_key: Seq<char>) -> Option<Seq<char>>;

/// Whether the text names a secret key that the signer can use: it parses,
/// and its stored key material is internally consistent.  Depends on the
/// text alone.
pub uninterp spec fn signable_key(secret_key: Seq<char>) -> bool;

/// The SHA-256 digest of a byte sequence; 32 bytes, a function of the input
/// alone.
pub uninterp spec fn sha256_of(bytes: Seq<u8>) -> Seq<u8>;

/// The standard base64 rendering of a byte sequence; a function of the input
/// alone.
pub uninterp spec fn base64_of(bytes: Seq<u8>) -> Seq<char>;

/// Relies on near_crypto::SecretKey::from_str, SecretKey::public_key and
/// PublicKey's Display impl: parsing the text form of a secret key and
/// re-deriving its public key is deterministic in the text.
#[verifier::external_body]
pub(crate) fn derive_public_key(secret_key: &str) -> (r: Option<String>)
    ensures
        match r {
            Some(s) => derived_public_key_of(secret_key@) == Some(s@),
            None => derived_public_key_of(secret_key@) is None,
        },
{
    match secret_key.parse::<near_crypto::SecretKey>() {
        Ok(sk) => Some(sk.public_key().to_string()),
        Err(_) => None,
    }
}

/// Relies on near_crypto::SecretKey::from_str and, for an ED25519 key,
/// ed25519_dalek::SigningKey::from_keypair_bytes: near_crypto's sign unwraps
/// that constructor, which refuses a keypair whose stored public half does
/// not match its secret half.  For the other key kinds from_str already
/// validates the key material, which near_crypto's sign expects.
#[verifier::external_body]
pub(crate) fn check_signing_key(secret_key: &str) -> (r: bool)
    ensures
        r == signable_key(secret_key@),
{
    match secret_key.parse::<near_crypto::SecretKey>() {
        Ok(near_crypto::SecretKey::ED25519(k)) => {
            ed25519_dalek::SigningKey::from_keypair_bytes(&k.0).is_ok()
        },
        Ok(_) => true,
        Err(_) => false,
    }
}

/// Relies on near_crypto::SecretKey::sign and Signature's Display impl.  The
/// 32-byte message bound comes from the SECP256K1 arm, which refuses any
/// other length; signing may be randomized, so nothing is stated of the
/// result.
#[verifier::external_body]
pub(crate) fn sign_digest(secret_key: &str, digest: &Vec<u8>) -> (r: String)
    requires
        signable_key(secret_key@),
        digest@.len() == 32,
{
    let sk: near_crypto::SecretKey = secret_key.parse().unwrap();
    sk.sign(digest).to_string()
}

/// Relies on near_primitives::hash::hash: the SHA-256 digest of the input,
/// as the 32 bytes of a CryptoHash.
#[verifier::external_body]
pub(crate) fn sha256(bytes: &Vec<u8>) -> (r: Vec<u8>)
    ensures
        r@ == sha256_of(bytes@),
        r@.len() == 32,
{
    near_primitives::hash::hash(bytes).0.to_vec()
}

/// Relies on near_primitives::serialize::to_base64: the standard base64
/// rendering of the input bytes.
#[verifier::external_body]
pub(crate) fn to_base64(bytes: &Vec<u8>) -> (r: String)
    ensures
        r@ == base64_of(bytes@),
{
    near_primitives::serialize::to_base64(bytes)
}

/// Relies on String::from_utf8: it succeeds exactly on valid UTF-8 and
/// preserves the bytes.
#[verifier::external_body]
pub(crate) fn string_from_utf8(bytes: Vec<u8>) -> (r: Option<String>)
    ensures
        match r {
            Some(s) => vstd::utf8::encode_utf8(s@) == bytes@ && vstd::utf8::valid_utf8(bytes@),
            None => !vstd::utf8::valid_utf8(bytes@),
        },
{
    String::from_utf8(bytes).ok()
}

} // verus!
