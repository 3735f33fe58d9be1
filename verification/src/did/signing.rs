//! Signatures over knowledge items.
//!
//! What is signed is the SHA-256 digest of the item's content, knowledge
//! type and creation time, joined by `|`; the signature is over the digest,
//! not over the text.

use vstd::prelude::*;
use vstd::string::*;
use vstd::utf8::encode_utf8;
use crate::did::identity::DidIdentity;
use crate::did::resolver::{did_to_verifying_key, spec_did_to_verifying_key, spec_public_key_to_did, PublicKey};
use crate::encoding::{hex_decode, hex_encode, lemma_hex_encode_injective, lemma_hex_round_trip, spec_hex_decode, spec_hex_encode};
use crate::error::EngineError;
use crate::primitives::{ed25519_sign, ed25519_verify, now_rfc3339, sha256, spec_ed25519_public_key, spec_ed25519_sign, spec_ed25519_verify, spec_sha256};
use crate::text::{array64_from_slice, str_eq};

verus! {

/// The signature of a knowledge item, with what is needed to check it.
#[derive(Clone, Debug)]
pub struct KnowledgeSignature {
    /// The DID of the signer.
    pub did_author: String,
    /// The Ed25519 signature, 64 bytes as hexadecimal text.
    pub signature: String,
    /// The SHA-256 digest that was signed, 32 bytes as hexadecimal text.
    pub content_hash: String,
    /// When the signature was made.
    pub signed_at: String,
}

/// A signature as plain text fields.
pub struct KnowledgeSignatureView {
    pub did_author: Seq<char>,
    pub signature: Seq<char>,
    pub content_hash: Seq<char>,
    pub signed_at: Seq<char>,
}

impl View for KnowledgeSignature {
    type V = KnowledgeSignatureView;

    open spec fn view(&self) -> KnowledgeSignatureView {
        KnowledgeSignatureView {
            did_author: self.did_author@,
            signature: self.signature@,
            content_hash: self.content_hash@,
            signed_at: self.signed_at@,
        }
    }
}

/// The byte the three fields are joined by: the ASCII character `|`.
pub const SEPARATOR: u8 = 0x7c;

/// The bytes that are hashed: the UTF-8 bytes of the three fields, joined by
/// `|`.
pub open spec fn canonical_message(content: Seq<char>, knowledge_type: Seq<char>, created_at: Seq<char>) -> Seq<u8> {
    encode_utf8(content) + seq![SEPARATOR] + encode_utf8(knowledge_type) + seq![SEPARATOR] + encode_utf8(created_at)
}

/// The digest that is signed.
pub open spec fn spec_canonical_hash(content: Seq<char>, knowledge_type: Seq<char>, created_at: Seq<char>) -> Seq<u8> {
    spec_sha256(canonical_message(content, knowledge_type, created_at))
}

/// What checking `signature_hex` against a digest under a key gives.
pub open spec fn spec_verify_hash(key: Seq<u8>, signature_hex: Seq<char>, hash: Seq<u8>) -> Result<bool, EngineError> {
    match spec_hex_decode(signature_hex) {
        None => Err(EngineError::SignatureHex),
        Some(signature) => if signature.len() != 64 {
            Err(EngineError::SignatureLength)
        } else {
            Ok(spec_ed25519_verify(key, hash, signature))
        },
    }
}

/// What verifying `sig` against three fields gives: `Ok(false)` where the
/// digest of the fields is not the signed one; an error where the signer's
/// DID or the signature text is malformed; else whether the signature is
/// valid for the digest under the signer's key.
pub open spec fn spec_verify_knowledge(
    sig: KnowledgeSignatureView,
    content: Seq<char>,
    knowledge_type: Seq<char>,
    created_at: Seq<char>,
) -> Result<bool, EngineError> {
    let expected = spec_canonical_hash(content, knowledge_type, created_at);
    if sig.content_hash != spec_hex_encode(expected) {
        Ok(false)
    } else {
        match spec_did_to_verifying_key(sig.did_author) {
            Err(e) => Err(e),
            Ok(key) => spec_verify_hash(key, sig.signature, expected),
        }
    }
}

/// The signature that the holder of `seed` gives three fields, apart from
/// its time stamp.
pub open spec fn is_signature_of(
    sig: KnowledgeSignatureView,
    seed: Seq<u8>,
    content: Seq<char>,
    knowledge_type: Seq<char>,
    created_at: Seq<char>,
) -> bool {
    let hash = spec_canonical_hash(content, knowledge_type, created_at);
    &&& sig.did_author == spec_public_key_to_did(spec_ed25519_public_key(seed))
    &&& sig.signature == spec_hex_encode(spec_ed25519_sign(seed, hash))
    &&& sig.content_hash == spec_hex_encode(hash)
}

/// The SHA-256 digest of `content|knowledge_type|created_at`.
pub fn canonical_hash(content: &str, knowledge_type: &str, created_at: &str) -> (res: Vec<u8>)
    ensures
        res@ == spec_canonical_hash(content@, knowledge_type@, created_at@),
        res@.len() == 32,
{
    let mut message: Vec<u8> = Vec::new();
    message.extend_from_slice(content.as_bytes());
    message.push(SEPARATOR);
    message.extend_from_slice(knowledge_type.as_bytes());
    message.push(SEPARATOR);
    message.extend_from_slice(created_at.as_bytes());
    assert(message@ == canonical_message(content@, knowledge_type@, created_at@));
    sha256(message.as_slice())
}

/// Signs three fields of a knowledge item with the identity's key and
/// stamps the signature with `signed_at`.
///
/// The signature verifies against the same three fields, and is found
/// invalid against any fields whose digest differs.
pub fn sign_knowledge_at(
    identity: &DidIdentity,
    content: &str,
    knowledge_type: &str,
    created_at: &str,
    signed_at: String,
) -> (res: Result<KnowledgeSignature, EngineError>)
    ensures
        match res {
            Ok(sig) => {
                &&& identity@ matches Some(v)
                &&& is_signature_of(sig@, v.seed, content@, knowledge_type@, created_at@)
                &&& sig.signed_at@ == signed_at@
                &&& spec_verify_knowledge(sig@, content@, knowledge_type@, created_at@) == Ok::<bool, EngineError>(true)
                &&& forall|c: Seq<char>, k: Seq<char>, t: Seq<char>|
                    spec_canonical_hash(c, k, t) != spec_canonical_hash(content@, knowledge_type@, created_at@)
                        ==> #[trigger] spec_verify_knowledge(sig@, c, k, t) == Ok::<bool, EngineError>(false)
            },
            Err(e) => identity@ is None && e == EngineError::NotInitialized,
        },
{
    let seed = match identity.get_signing_key() {
        Ok(seed) => seed,
        Err(e) => {
            return Err(e);
        },
    };
    let did = match identity.get_did() {
        Ok(did) => did,
        Err(e) => {
            return Err(e);
        },
    };
    let hash = canonical_hash(content, knowledge_type, created_at);
    let signature = ed25519_sign(&seed, hash.as_slice());
    let sig = KnowledgeSignature {
        did_author: did,
        signature: hex_encode(signature.as_slice()),
        content_hash: hex_encode(hash.as_slice()),
        signed_at,
    };
    proof {
        lemma_hex_round_trip(signature@);
        assert forall|c: Seq<char>, k: Seq<char>, t: Seq<char>|
            spec_canonical_hash(c, k, t) != hash@ implies #[trigger] spec_verify_knowledge(sig@, c, k, t)
            == Ok::<bool, EngineError>(false) by {
            if spec_hex_encode(spec_canonical_hash(c, k, t)) == spec_hex_encode(hash@) {
                lemma_hex_encode_injective(spec_canonical_hash(c, k, t), hash@);
            }
        }
    }
    Ok(sig)
}

/// Signs three fields of a knowledge item with the identity's key, at the
/// current time.
///
/// The signature verifies against the same three fields, and is found
/// invalid against any fields whose digest differs.
pub fn sign_knowledge(identity: &DidIdentity, content: &str, knowledge_type: &str, created_at: &str) -> (res: Result<
    KnowledgeSignature,
    EngineError,
>)
    ensures
        match res {
            Ok(sig) => {
                &&& identity@ matches Some(v)
                &&& is_signature_of(sig@, v.seed, content@, knowledge_type@, created_at@)
                &&& spec_verify_knowledge(sig@, content@, knowledge_type@, created_at@) == Ok::<bool, EngineError>(true)
                &&& forall|c: Seq<char>, k: Seq<char>, t: Seq<char>|
                    spec_canonical_hash(c, k, t) != spec_canonical_hash(content@, knowledge_type@, created_at@)
                        ==> #[trigger] spec_verify_knowledge(sig@, c, k, t) == Ok::<bool, EngineError>(false)
            },
            Err(e) => identity@ is None && e == EngineError::NotInitialized,
        },
{
    let now = now_rfc3339();
    sign_knowledge_at(identity, content, knowledge_type, created_at, now)
}

fn verify_hash(key: &PublicKey, signature_hex: &str, hash: &[u8]) -> (res: Result<bool, EngineError>)
    ensures
        res == spec_verify_hash(key@, signature_hex@, hash@),
{
    let sig_bytes = match hex_decode(signature_hex) {
        Some(bytes) => bytes,
        None => {
            return Err(EngineError::SignatureHex);
        },
    };
    if sig_bytes.len() != 64 {
        return Err(EngineError::SignatureLength);
    }
    let sig_array = array64_from_slice(sig_bytes.as_slice());
    Ok(ed25519_verify(key.as_bytes(), hash, &sig_array))
}

/// Verifies a signature against three fields of a knowledge item.
///
/// `Ok(true)` where the signature is valid, `Ok(false)` where the fields
/// were changed or the signature does not verify, an error where the
/// signer's DID or the signature text is malformed.
pub fn verify_knowledge(sig: &KnowledgeSignature, content: &str, knowledge_type: &str, created_at: &str) -> (res: Result<
    bool,
    EngineError,
>)
    ensures
        res == spec_verify_knowledge(sig@, content@, knowledge_type@, created_at@),
{
    let expected_hash = canonical_hash(content, knowledge_type, created_at);
    let expected_hash_hex = hex_encode(expected_hash.as_slice());
    if !str_eq(sig.content_hash.as_str(), expected_hash_hex.as_str()) {
        return Ok(false);
    }
    let verifying_key = match did_to_verifying_key(sig.did_author.as_str()) {
        Ok(key) => key,
        Err(e) => {
            return Err(e);
        },
    };
    verify_hash(&verifying_key, sig.signature.as_str(), expected_hash.as_slice())
}

/// Verifies a signature, given as hexadecimal text, against three fields of
/// a knowledge item under a given public key.
pub fn verify_with_key(
    verifying_key: &PublicKey,
    sig_hex: &str,
    content: &str,
    knowledge_type: &str,
    created_at: &str,
) -> (res: Result<bool, EngineError>)
    ensures
        res == spec_verify_hash(
            verifying_key@,
            sig_hex@,
            spec_canonical_hash(content@, knowledge_type@, created_at@),
        ),
{
    let hash = canonical_hash(content, knowledge_type, created_at);
    verify_hash(verifying_key, sig_hex, hash.as_slice())
}

} // verus!
