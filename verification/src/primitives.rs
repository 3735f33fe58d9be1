//! The cryptographic primitives, the random source and the clock that the
//! crate builds on. Each stands behind one function whose body makes the
//! outside call; the contracts say what the callers rely on and what the
//! outside crates document. Deterministic primitives get a name for their
//! result, so that callers can state exactly what they compute.

use vstd::prelude::*;
use aes_gcm::aead::Aead;
use aes_gcm::AeadCore;
use aes_gcm::KeyInit;
use ed25519_dalek::Signer;
use ed25519_dalek::Verifier;
use sha2::Digest;

verus! {

// ---------------------------------------------------------------------------
// SHA-256
// ---------------------------------------------------------------------------

/// The SHA-256 digest of a byte string.
pub uninterp spec fn spec_sha256(data: Seq<u8>) -> Seq<u8>;

/// `Sha256::digest`: the 32-byte digest of `data`.
#[verifier::external_body]
pub(crate) fn sha256(data: &[u8]) -> (res: Vec<u8>)
    ensures
        res@ == spec_sha256(data@),
        res@.len() == 32,
{
    sha2::Sha256::digest(data).to_vec()
}

// ---------------------------------------------------------------------------
// Ed25519
// ---------------------------------------------------------------------------

/// The public key that belongs to a 32-byte secret seed.
pub uninterp spec fn spec_ed25519_public_key(seed: Seq<u8>) -> Seq<u8>;

/// The signature that a secret seed gives a message. Ed25519 signing uses no
/// randomness.
pub uninterp spec fn spec_ed25519_sign(seed: Seq<u8>, message: Seq<u8>) -> Seq<u8>;

/// Whether 32 bytes are the encoding of a point of the curve, that is, a
/// public key that the verifier accepts as a key.
pub uninterp spec fn spec_ed25519_key_is_valid(key: Seq<u8>) -> bool;

/// Whether `signature` is valid for `message` under the public key `key`.
pub uninterp spec fn spec_ed25519_verify(key: Seq<u8>, message: Seq<u8>, signature: Seq<u8>) -> bool;

/// `SigningKey::from_bytes(seed).verifying_key()`, as bytes. The key it gives
/// is one that `VerifyingKey::from_bytes` accepts.
#[verifier::external_body]
pub(crate) fn ed25519_public_key(seed: &[u8; 32]) -> (res: [u8; 32])
    ensures
        res@ == spec_ed25519_public_key(seed@),
        spec_ed25519_key_is_valid(res@),
{
    ed25519_dalek::SigningKey::from_bytes(seed).verifying_key().to_bytes()
}

/// `SigningKey::sign`, as bytes. The signature it gives verifies under the
/// seed's public key.
#[verifier::external_body]
pub(crate) fn ed25519_sign(seed: &[u8; 32], message: &[u8]) -> (res: [u8; 64])
    ensures
        res@ == spec_ed25519_sign(seed@, message@),
        spec_ed25519_verify(spec_ed25519_public_key(seed@), message@, res@),
{
    ed25519_dalek::SigningKey::from_bytes(seed).sign(message).to_bytes()
}

/// Whether `VerifyingKey::from_bytes` accepts the bytes.
#[verifier::external_body]
pub(crate) fn ed25519_key_is_valid(key: &[u8; 32]) -> (res: bool)
    ensures
        res == spec_ed25519_key_is_valid(key@),
{
    ed25519_dalek::VerifyingKey::from_bytes(key).is_ok()
}

/// `VerifyingKey::verify` on a key and a signature given as bytes. Bytes
/// that are no key verify nothing.
#[verifier::external_body]
pub(crate) fn ed25519_verify(key: &[u8; 32], message: &[u8], signature: &[u8; 64]) -> (res: bool)
    ensures
        res == spec_ed25519_verify(key@, message@, signature@),
        res ==> spec_ed25519_key_is_valid(key@),
{
    match ed25519_dalek::VerifyingKey::from_bytes(key) {
        Ok(k) => k.verify(message, &ed25519_dalek::Signature::from_bytes(signature)).is_ok(),
        Err(_) => false,
    }
}

/// A fresh secret seed from the operating system's random source
/// (`SigningKey::generate`).
#[verifier::external_body]
pub(crate) fn ed25519_generate_seed() -> (res: [u8; 32]) {
    ed25519_dalek::SigningKey::generate(&mut rand::rngs::OsRng).to_bytes()
}

// ---------------------------------------------------------------------------
// HKDF-SHA256
// ---------------------------------------------------------------------------

/// The first 32 bytes of HKDF-SHA256 output for a salt, input keying material
/// and info string.
pub uninterp spec fn spec_hkdf_sha256(salt: Seq<u8>, ikm: Seq<u8>, info: Seq<u8>) -> Seq<u8>;

#[verifier::external_type_specification]
#[verifier::external_body]
pub struct ExHkdfInvalidLength(hkdf::InvalidLength);

/// `Hkdf::<Sha256>::new(Some(salt), ikm).expand(info, ..)` into 32 bytes.
/// Expansion fails only for outputs longer than 255 digests, so never here.
#[verifier::external_body]
pub(crate) fn hkdf_sha256(salt: &[u8], ikm: &[u8], info: &[u8]) -> (res: Result<[u8; 32], hkdf::InvalidLength>)
    ensures
        res is Ok,
        res matches Ok(key) ==> key@ == spec_hkdf_sha256(salt@, ikm@, info@),
{
    let mut key = [0u8; 32];
    match hkdf::Hkdf::<sha2::Sha256>::new(Some(salt), ikm).expand(info, &mut key) {
        Ok(()) => Ok(key),
        Err(e) => Err(e),
    }
}

// ---------------------------------------------------------------------------
// AES-256-GCM
// ---------------------------------------------------------------------------

/// The largest plaintext, in bytes, that AES-GCM encrypts.
pub const AES_GCM_MAX_PLAINTEXT: u64 = 0x10_0000_0000;

/// Ciphertext followed by the 16-byte tag, for a key, a 12-byte nonce and a
/// plaintext, with no associated data.
pub uninterp spec fn spec_aes256_gcm_seal(key: Seq<u8>, nonce: Seq<u8>, plaintext: Seq<u8>) -> Seq<u8>;

/// The plaintext of a sealed message, or `None` where the tag does not
/// authenticate it under the key and nonce.
pub uninterp spec fn spec_aes256_gcm_open(key: Seq<u8>, nonce: Seq<u8>, sealed: Seq<u8>) -> Option<Seq<u8>>;

#[verifier::external_type_specification]
#[verifier::external_body]
pub struct ExAeadError(aes_gcm::Error);

/// `Aes256Gcm::encrypt`. It fails only on a plaintext over the cipher's
/// limit; what it gives is 16 bytes longer than the plaintext and opens to
/// the plaintext under the same key and nonce.
#[verifier::external_body]
pub(crate) fn aes256_gcm_seal(key: &[u8; 32], nonce: &[u8], plaintext: &[u8]) -> (res: Result<Vec<u8>, aes_gcm::Error>)
    requires
        nonce@.len() == 12,
    ensures
        plaintext@.len() <= AES_GCM_MAX_PLAINTEXT ==> res is Ok,
        res matches Ok(sealed) ==> {
            &&& sealed@ == spec_aes256_gcm_seal(key@, nonce@, plaintext@)
            &&& sealed@.len() == plaintext@.len() + 16
            &&& spec_aes256_gcm_open(key@, nonce@, sealed@) == Some(plaintext@)
        },
{
    aes_gcm::Aes256Gcm::new(aes_gcm::Key::<aes_gcm::Aes256Gcm>::from_slice(key))
        .encrypt(aes_gcm::Nonce::from_slice(nonce), plaintext)
}

/// `Aes256Gcm::decrypt`.
#[verifier::external_body]
pub(crate) fn aes256_gcm_open(key: &[u8; 32], nonce: &[u8], sealed: &[u8]) -> (res: Result<Vec<u8>, aes_gcm::Error>)
    requires
        nonce@.len() == 12,
    ensures
        res matches Ok(plaintext) ==> spec_aes256_gcm_open(key@, nonce@, sealed@) == Some(plaintext@),
        res is Err ==> spec_aes256_gcm_open(key@, nonce@, sealed@) is None,
{
    aes_gcm::Aes256Gcm::new(aes_gcm::Key::<aes_gcm::Aes256Gcm>::from_slice(key))
        .decrypt(aes_gcm::Nonce::from_slice(nonce), sealed)
}

/// A fresh 96-bit nonce from the operating system's random source
/// (`Aes256Gcm::generate_nonce`).
#[verifier::external_body]
pub(crate) fn aes256_gcm_random_nonce() -> (res: [u8; 12]) {
    aes_gcm::Aes256Gcm::generate_nonce(&mut aes_gcm::aead::OsRng).into()
}

// ---------------------------------------------------------------------------
// Clock and identifiers
// ---------------------------------------------------------------------------

/// The current time in UTC as an RFC 3339 string (`Utc::now().to_rfc3339()`).
#[verifier::external_body]
pub(crate) fn now_rfc3339() -> (res: String) {
    chrono::Utc::now().to_rfc3339()
}

/// A fresh random identifier (`Uuid::new_v4()`), in the hyphenated form of 36
/// characters.
#[verifier::external_body]
pub(crate) fn new_uuid() -> (res: String)
    ensures
        res@.len() == 36,
{
    uuid::Uuid::new_v4().to_string()
}

} // verus!
