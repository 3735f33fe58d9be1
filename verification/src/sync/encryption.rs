//! The sync envelope: AES-256-GCM under a key derived from the identity's
//! secret seed.
//!
//! An envelope is a 12-byte nonce followed by the ciphertext and its 16-byte
//! tag; in transit it is standard Base64 text.

use vstd::prelude::*;
use vstd::slice::slice_subrange;
use vstd::string::*;
use vstd::utf8::{decode_utf8, encode_utf8, encode_utf8_decode_utf8, encode_utf8_valid_utf8, valid_utf8};
use crate::encoding::{base64_decode, base64_encode, base64_fits, spec_base64_decode, spec_base64_encode};
use crate::error::EngineError;
use crate::primitives::{
    aes256_gcm_open,
    aes256_gcm_random_nonce,
    aes256_gcm_seal,
    hkdf_sha256,
    spec_aes256_gcm_open,
    spec_aes256_gcm_seal,
    spec_hkdf_sha256,
    AES_GCM_MAX_PLAINTEXT,
};
use crate::text::string_from_utf8;

verus! {

/// Length of the nonce at the head of an envelope.
pub const NONCE_SIZE: usize = 12;

/// Length of the tag at the end of an envelope.
pub const TAG_SIZE: usize = 16;

/// The salt of the key derivation.
pub open spec fn hkdf_salt() -> Seq<u8> {
    encode_utf8("rebe-sync-v1"@)
}

/// The info string of the key derivation.
pub open spec fn hkdf_info() -> Seq<u8> {
    encode_utf8("rebe-e2e-sync-aes256gcm"@)
}

/// The sync key of a secret seed: HKDF-SHA256 with fixed salt and info, 32
/// bytes long. The same seed always gives the same key.
pub open spec fn spec_derive_sync_key(seed: Seq<u8>) -> Seq<u8> {
    spec_hkdf_sha256(hkdf_salt(), seed, hkdf_info())
}

/// The envelope that a key, a nonce and a plaintext give.
pub open spec fn spec_envelope(key: Seq<u8>, nonce: Seq<u8>, plaintext: Seq<u8>) -> Seq<u8> {
    nonce + spec_aes256_gcm_seal(key, nonce, plaintext)
}

/// What opening an envelope gives: an error where it is shorter than a nonce
/// and a tag or where the tag does not authenticate it, else the plaintext.
pub open spec fn spec_decrypt(key: Seq<u8>, encrypted: Seq<u8>) -> Result<Seq<u8>, EngineError> {
    if encrypted.len() < NONCE_SIZE + TAG_SIZE {
        Err(EngineError::CiphertextTooShort)
    } else {
        match spec_aes256_gcm_open(
            key,
            encrypted.subrange(0, NONCE_SIZE as int),
            encrypted.subrange(NONCE_SIZE as int, encrypted.len() as int),
        ) {
            Some(plaintext) => Ok(plaintext),
            None => Err(EngineError::Authentication),
        }
    }
}

/// What opening a Base64 envelope as text gives.
pub open spec fn spec_decrypt_json(key: Seq<u8>, base64_blob: Seq<char>) -> Result<Seq<char>, EngineError> {
    match spec_base64_decode(base64_blob) {
        None => Err(EngineError::Base64),
        Some(encrypted) => match spec_decrypt(key, encrypted) {
            Err(e) => Err(e),
            Ok(plaintext) => if valid_utf8(plaintext) {
                Ok(decode_utf8(plaintext))
            } else {
                Err(EngineError::Utf8)
            },
        },
    }
}

/// Whether a text of `len` bytes can be sealed and written as Base64.
pub open spec fn json_fits(len: nat) -> bool {
    len <= AES_GCM_MAX_PLAINTEXT && base64_fits(len + NONCE_SIZE as nat + TAG_SIZE as nat)
}

/// Derives the 32-byte sync key from the identity's secret seed.
pub fn derive_sync_key(did_private_key: &[u8]) -> (res: Result<[u8; 32], EngineError>)
    ensures
        res matches Ok(key) && key@ == spec_derive_sync_key(did_private_key@),
{
    match hkdf_sha256("rebe-sync-v1".as_bytes(), did_private_key, "rebe-e2e-sync-aes256gcm".as_bytes()) {
        Ok(key) => Ok(key),
        Err(_) => Err(EngineError::KeyDerivation),
    }
}

/// Seals `plaintext` under `key` with the given nonce.
///
/// Succeeds for every plaintext within the cipher's limit. The envelope is
/// 28 bytes longer than the plaintext and opens to it under the same key.
pub fn encrypt_with_nonce(key: &[u8; 32], nonce: &[u8; 12], plaintext: &[u8]) -> (res: Result<Vec<u8>, EngineError>)
    ensures
        plaintext@.len() <= AES_GCM_MAX_PLAINTEXT ==> res is Ok,
        match res {
            Ok(envelope) => {
                &&& envelope@ == spec_envelope(key@, nonce@, plaintext@)
                &&& envelope@.len() == plaintext@.len() + NONCE_SIZE + TAG_SIZE
                &&& spec_decrypt(key@, envelope@) == Ok::<Seq<u8>, EngineError>(plaintext@)
            },
            Err(e) => e == EngineError::Encryption,
        },
{
    let sealed = match aes256_gcm_seal(key, nonce.as_slice(), plaintext) {
        Ok(sealed) => sealed,
        Err(_) => {
            return Err(EngineError::Encryption);
        },
    };
    let mut result: Vec<u8> = Vec::new();
    result.extend_from_slice(nonce.as_slice());
    result.extend_from_slice(sealed.as_slice());
    proof {
        assert(result@.subrange(0, NONCE_SIZE as int) == nonce@);
        assert(result@.subrange(NONCE_SIZE as int, result@.len() as int) == sealed@);
    }
    Ok(result)
}

/// Seals `plaintext` under `key` with a fresh random nonce.
///
/// Succeeds for every plaintext within the cipher's limit. Whatever the
/// nonce, the envelope is 28 bytes longer than the plaintext and opens to
/// it under the same key.
pub fn encrypt(key: &[u8; 32], plaintext: &[u8]) -> (res: Result<Vec<u8>, EngineError>)
    ensures
        plaintext@.len() <= AES_GCM_MAX_PLAINTEXT ==> res is Ok,
        match res {
            Ok(envelope) => {
                &&& envelope@.len() == plaintext@.len() + NONCE_SIZE + TAG_SIZE
                &&& envelope@ == spec_envelope(key@, envelope@.subrange(0, NONCE_SIZE as int), plaintext@)
                &&& spec_decrypt(key@, envelope@) == Ok::<Seq<u8>, EngineError>(plaintext@)
            },
            Err(e) => e == EngineError::Encryption,
        },
{
    let nonce = aes256_gcm_random_nonce();
    let res = encrypt_with_nonce(key, &nonce, plaintext);
    proof {
        if res is Ok {
            assert(res->Ok_0@.subrange(0, NONCE_SIZE as int) == nonce@);
        }
    }
    res
}

/// Opens an envelope.
///
/// Fails where the envelope is shorter than a nonce and a tag, and where
/// the key is wrong or the data was tampered with.
pub fn decrypt(key: &[u8; 32], encrypted: &[u8]) -> (res: Result<Vec<u8>, EngineError>)
    ensures
        match res {
            Ok(plaintext) => spec_decrypt(key@, encrypted@) == Ok::<Seq<u8>, EngineError>(plaintext@),
            Err(e) => spec_decrypt(key@, encrypted@) == Err::<Seq<u8>, EngineError>(e),
        },
{
    if encrypted.len() < NONCE_SIZE + TAG_SIZE {
        return Err(EngineError::CiphertextTooShort);
    }
    let nonce = slice_subrange(encrypted, 0, NONCE_SIZE);
    let ciphertext = slice_subrange(encrypted, NONCE_SIZE, encrypted.len());
    match aes256_gcm_open(key, nonce, ciphertext) {
        Ok(plaintext) => Ok(plaintext),
        Err(_) => Err(EngineError::Authentication),
    }
}

/// Seals a text under `key` with the given nonce and writes the envelope as
/// Base64.
pub fn encrypt_json_with_nonce(key: &[u8; 32], nonce: &[u8; 12], json: &str) -> (res: Result<String, EngineError>)
    ensures
        res is Ok <==> json_fits(encode_utf8(json@).len()),
        match res {
            Ok(blob) => {
                &&& blob@ == spec_base64_encode(spec_envelope(key@, nonce@, encode_utf8(json@)))
                &&& blob@.len() > 0
                &&& spec_decrypt_json(key@, blob@) == Ok::<Seq<char>, EngineError>(json@)
            },
            Err(e) => e == EngineError::Encryption,
        },
{
    let plaintext = json.as_bytes();
    if plaintext.len() as u64 > AES_GCM_MAX_PLAINTEXT {
        return Err(EngineError::Encryption);
    }
    let encrypted = match encrypt_with_nonce(key, nonce, plaintext) {
        Ok(encrypted) => encrypted,
        Err(e) => {
            return Err(e);
        },
    };
    if encrypted.len() / 3 > (usize::MAX - 4) / 4 {
        return Err(EngineError::Encryption);
    }
    proof {
        encode_utf8_valid_utf8(json@);
        encode_utf8_decode_utf8(json@);
    }
    Ok(base64_encode(encrypted.as_slice()))
}

/// Seals a text under `key` with a fresh random nonce and writes the
/// envelope as Base64. Whatever the nonce, the blob is not empty and opens
/// to the text under the same key.
pub fn encrypt_json(key: &[u8; 32], json: &str) -> (res: Result<String, EngineError>)
    ensures
        res is Ok <==> json_fits(encode_utf8(json@).len()),
        match res {
            Ok(blob) => blob@.len() > 0 && spec_decrypt_json(key@, blob@) == Ok::<Seq<char>, EngineError>(json@),
            Err(e) => e == EngineError::Encryption,
        },
{
    let nonce = aes256_gcm_random_nonce();
    encrypt_json_with_nonce(key, &nonce, json)
}

/// Opens a Base64 envelope and reads the plaintext as text.
///
/// Fails where the blob is not Base64, where the envelope does not open,
/// and where the plaintext is not UTF-8.
pub fn decrypt_json(key: &[u8; 32], base64_blob: &str) -> (res: Result<String, EngineError>)
    ensures
        match res {
            Ok(json) => spec_decrypt_json(key@, base64_blob@) == Ok::<Seq<char>, EngineError>(json@),
            Err(e) => spec_decrypt_json(key@, base64_blob@) == Err::<Seq<char>, EngineError>(e),
        },
{
    let encrypted = match base64_decode(base64_blob) {
        Ok(encrypted) => encrypted,
        Err(_) => {
            return Err(EngineError::Base64);
        },
    };
    let plaintext = match decrypt(key, encrypted.as_slice()) {
        Ok(plaintext) => plaintext,
        Err(e) => {
            return Err(e);
        },
    };
    match string_from_utf8(plaintext) {
        Ok(json) => Ok(json),
        Err(_) => Err(EngineError::Utf8),
    }
}

} // verus!
