//! The `did:key` method for Ed25519 keys.
//!
//! A DID is the text `did:key:z` followed by the Base58 (Bitcoin alphabet)
//! text of the two multicodec bytes `0xed 0x01` and the 32 bytes of the
//! public key.

use vstd::prelude::*;
use vstd::string::*;
use crate::encoding::{base58_decode, base58_encode, spec_base58_decode, spec_base58_encode};
use crate::error::EngineError;
use crate::primitives::{ed25519_key_is_valid, ed25519_public_key, spec_ed25519_key_is_valid, spec_ed25519_public_key};
use crate::text::{array32_from_slice, str_eq};

verus! {

/// First byte of the multicodec prefix of an Ed25519 public key.
pub const MULTICODEC_ED25519_0: u8 = 0xed;

/// Second byte of the multicodec prefix of an Ed25519 public key.
pub const MULTICODEC_ED25519_1: u8 = 0x01;

/// The text that every `did:key` with a Base58 body begins with.
pub open spec fn did_key_prefix() -> Seq<char> {
    "did:key:z"@
}

/// The DID of 32 public key bytes.
pub open spec fn spec_public_key_to_did(key: Seq<u8>) -> Seq<char> {
    did_key_prefix() + spec_base58_encode(seq![MULTICODEC_ED25519_0, MULTICODEC_ED25519_1] + key)
}

/// The 32 key bytes that a DID names, or the reason why it names none.
pub open spec fn spec_did_to_public_key_bytes(did: Seq<char>) -> Result<Seq<u8>, EngineError> {
    if !(did.len() >= 9 && did.subrange(0, 9) == did_key_prefix()) {
        Err(EngineError::DidFormat)
    } else {
        match spec_base58_decode(did.subrange(9, did.len() as int)) {
            None => Err(EngineError::DidBase58),
            Some(decoded) => {
                if decoded.len() < 2 {
                    Err(EngineError::DidTooShort)
                } else if decoded[0] != MULTICODEC_ED25519_0 || decoded[1] != MULTICODEC_ED25519_1 {
                    Err(EngineError::DidMulticodec)
                } else if decoded.len() != 34 {
                    Err(EngineError::DidKeyLength)
                } else {
                    Ok(decoded.subrange(2, 34))
                }
            },
        }
    }
}

/// The key that a DID resolves to: its 32 bytes, where they are an Ed25519
/// public key.
pub open spec fn spec_did_to_verifying_key(did: Seq<char>) -> Result<Seq<u8>, EngineError> {
    match spec_did_to_public_key_bytes(did) {
        Err(e) => Err(e),
        Ok(key) => if spec_ed25519_key_is_valid(key) {
            Ok(key)
        } else {
            Err(EngineError::InvalidPublicKey)
        },
    }
}

/// The short display form of a DID: `did:key:`, the first eight characters
/// after it, three dots and the last four characters. Strings of at most 20
/// characters are displayed whole.
pub open spec fn spec_did_short(did: Seq<char>) -> Seq<char> {
    if did.len() > 20 {
        "did:key:"@ + did.subrange(8, 16) + "..."@ + did.subrange(did.len() - 4, did.len() as int)
    } else {
        did
    }
}

/// An Ed25519 public key: 32 bytes that encode a point of the curve.
#[derive(Clone, Copy, Debug, PartialEq, Eq)]
pub struct PublicKey {
    bytes: [u8; 32],
}

impl View for PublicKey {
    type V = Seq<u8>;

    closed spec fn view(&self) -> Seq<u8> {
        self.bytes@
    }
}

impl PublicKey {
    #[verifier::type_invariant]
    spec fn is_key(self) -> bool {
        spec_ed25519_key_is_valid(self.bytes@)
    }

    /// The key that 32 bytes encode, unless they encode no point.
    pub fn from_bytes(bytes: &[u8; 32]) -> (res: Result<PublicKey, EngineError>)
        ensures
            match res {
                Ok(key) => key@ == bytes@ && spec_ed25519_key_is_valid(bytes@),
                Err(e) => e == EngineError::InvalidPublicKey && !spec_ed25519_key_is_valid(bytes@),
            },
    {
        if ed25519_key_is_valid(bytes) {
            Ok(PublicKey { bytes: *bytes })
        } else {
            Err(EngineError::InvalidPublicKey)
        }
    }

    /// The public key of a secret seed.
    pub fn from_seed(seed: &[u8; 32]) -> (res: PublicKey)
        ensures
            res@ == spec_ed25519_public_key(seed@),
    {
        PublicKey { bytes: ed25519_public_key(seed) }
    }

    /// The 32 bytes of the key.
    pub fn to_bytes(&self) -> (res: [u8; 32])
        ensures
            res@ == self@,
    {
        self.bytes
    }

    /// The 32 bytes of the key, which encode a point of the curve.
    pub fn as_bytes(&self) -> (res: &[u8; 32])
        ensures
            res@ == self@,
            spec_ed25519_key_is_valid(res@),
    {
        proof {
            use_type_invariant(self);
        }
        &self.bytes
    }
}

/// The `did:key` string of a public key.
///
/// Decoding the string gives the key back: on Ed25519 keys, decoding undoes
/// encoding.
pub fn public_key_to_did(verifying_key: &PublicKey) -> (res: String)
    ensures
        res@ == spec_public_key_to_did(verifying_key@),
        spec_did_to_public_key_bytes(res@) == Ok::<Seq<u8>, EngineError>(verifying_key@),
        spec_did_to_verifying_key(res@) == Ok::<Seq<u8>, EngineError>(verifying_key@),
{
    let key = verifying_key.as_bytes();
    let mut multicodec_bytes: Vec<u8> = Vec::new();
    multicodec_bytes.push(MULTICODEC_ED25519_0);
    multicodec_bytes.push(MULTICODEC_ED25519_1);
    let mut i: usize = 0;
    while i < 32
        invariant
            i <= 32,
            key@.len() == 32,
            multicodec_bytes@ == seq![MULTICODEC_ED25519_0, MULTICODEC_ED25519_1] + key@.subrange(0, i as int),
        decreases 32 - i,
    {
        multicodec_bytes.push(key[i]);
        i += 1;
    }
    assert(key@.subrange(0, 32) == key@);
    let encoded = base58_encode(multicodec_bytes.as_slice());
    let mut did = String::from_str("did:key:z");
    did.append(encoded.as_str());
    proof {
        reveal_strlit("did:key:z");
        let body = seq![MULTICODEC_ED25519_0, MULTICODEC_ED25519_1] + key@;
        assert(did@.subrange(0, 9) == did_key_prefix());
        assert(did@.subrange(9, did@.len() as int) == encoded@);
        assert(body.subrange(2, 34) == key@);
    }
    did
}

/// The 32 public key bytes that a `did:key` string names.
///
/// Fails where the string lacks the `did:key:z` prefix, where its body is
/// not Base58, and where the decoded body is not the Ed25519 multicodec
/// prefix followed by exactly 32 bytes.
pub fn did_to_public_key_bytes(did: &str) -> (res: Result<[u8; 32], EngineError>)
    ensures
        match res {
            Ok(key) => spec_did_to_public_key_bytes(did@) == Ok::<Seq<u8>, EngineError>(key@),
            Err(e) => spec_did_to_public_key_bytes(did@) == Err::<Seq<u8>, EngineError>(e),
        },
{
    let n = did.unicode_len();
    if n < 9 {
        return Err(EngineError::DidFormat);
    }
    let head = did.substring_char(0, 9);
    if !str_eq(head, "did:key:z") {
        return Err(EngineError::DidFormat);
    }
    let encoded = did.substring_char(9, n);
    match base58_decode(encoded) {
        Err(_) => Err(EngineError::DidBase58),
        Ok(decoded) => {
            if decoded.len() < 2 {
                return Err(EngineError::DidTooShort);
            }
            if decoded[0] != MULTICODEC_ED25519_0 || decoded[1] != MULTICODEC_ED25519_1 {
                return Err(EngineError::DidMulticodec);
            }
            if decoded.len() != 34 {
                return Err(EngineError::DidKeyLength);
            }
            Ok(array32_from_slice(decoded.as_slice(), 2))
        },
    }
}

/// The public key that a `did:key` string names.
///
/// Fails as [`did_to_public_key_bytes`] does, and where the 32 bytes are no
/// Ed25519 public key.
pub fn did_to_verifying_key(did: &str) -> (res: Result<PublicKey, EngineError>)
    ensures
        match res {
            Ok(key) => spec_did_to_verifying_key(did@) == Ok::<Seq<u8>, EngineError>(key@),
            Err(e) => spec_did_to_verifying_key(did@) == Err::<Seq<u8>, EngineError>(e),
        },
{
    match did_to_public_key_bytes(did) {
        Err(e) => Err(e),
        Ok(key_bytes) => PublicKey::from_bytes(&key_bytes),
    }
}

/// Whether a string is a well-formed `did:key` for an Ed25519 key.
pub fn is_valid_did_key(did: &str) -> (res: bool)
    ensures
        res == spec_did_to_public_key_bytes(did@) is Ok,
{
    did_to_public_key_bytes(did).is_ok()
}

/// The short display form of a DID.
pub fn did_short(did: &str) -> (res: String)
    ensures
        res@ == spec_did_short(did@),
{
    let n = did.unicode_len();
    if n > 20 {
        let mut out = String::from_str("did:key:");
        out.append(did.substring_char(8, 16));
        out.append("...");
        out.append(did.substring_char(n - 4, n));
        out
    } else {
        String::from_str(did)
    }
}

} // verus!
