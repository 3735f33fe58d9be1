//! The errors that the library reports.

use vstd::prelude::*;

verus! {

/// The broad classes of failure that callers tell apart.
#[derive(Clone, Copy, Debug, PartialEq, Eq, Structural)]
pub enum ErrorKind {
    /// A malformed argument: a bad DID, a key of the wrong length, a
    /// confidence out of range, an unknown scope.
    InvalidArgument,
    /// The identity was used before it was initialized.
    NotInitialized,
    /// An embedding that is no embedding of this engine.
    Embedding,
    /// A malformed signature: bad hexadecimal text or a wrong length.
    Signature,
    /// Key derivation, encryption, decryption or decoding of an envelope
    /// failed.
    Crypto,
    /// The analyzer's reply could not be read.
    ParseExternal,
}

/// What went wrong.
#[derive(Clone, Copy, Debug, PartialEq, Eq, Structural)]
pub enum EngineError {
    /// The string does not begin with `did:key:z`.
    DidFormat,
    /// The part after `did:key:z` is not Base58.
    DidBase58,
    /// The decoded DID holds fewer than two bytes.
    DidTooShort,
    /// The decoded DID does not begin with the Ed25519 multicodec prefix.
    DidMulticodec,
    /// The key in the DID is not 32 bytes long.
    DidKeyLength,
    /// The 32 bytes are not an Ed25519 public key.
    InvalidPublicKey,
    /// The private key is not hexadecimal text.
    PrivateKeyHex,
    /// The private key is not 32 bytes long.
    PrivateKeyLength,
    /// The scope is none of `personal`, `team`, `role`, `global`.
    UnknownScope,
    /// The scope layer is none of the six layers.
    UnknownScopeLayer,
    /// The dialectic tag is none of the five tags.
    UnknownDialecticTag,
    /// The outcome is none of the four outcomes.
    UnknownOutcome,
    /// The confidence is outside `[0, 1]`.
    ConfidenceOutOfRange,
    /// The relevance score is outside `[0, 1]`.
    RelevanceOutOfRange,
    /// The usage count is negative.
    NegativeUsageCount,
    /// `updated_at` is earlier than `created_at`.
    TimestampOrder,
    /// There are no messages to analyze.
    NoMessages,
    /// The embedding has not 384 dimensions.
    EmbeddingDimension,
    /// The identity holds no key yet.
    NotInitialized,
    /// The signature is not hexadecimal text.
    SignatureHex,
    /// The signature is not 64 bytes long.
    SignatureLength,
    /// HKDF expansion failed.
    KeyDerivation,
    /// The cipher refused to encrypt.
    Encryption,
    /// The envelope is shorter than a nonce and a tag.
    CiphertextTooShort,
    /// Decryption failed: wrong key or tampered data.
    Authentication,
    /// The envelope is not Base64.
    Base64,
    /// The decrypted bytes are not UTF-8.
    Utf8,
    /// The analyzer's reply holds no text.
    NoTextContent,
}

impl EngineError {
    /// The class of an error.
    pub open spec fn spec_kind(self) -> ErrorKind {
        match self {
            EngineError::DidFormat
            | EngineError::DidBase58
            | EngineError::DidTooShort
            | EngineError::DidMulticodec
            | EngineError::DidKeyLength
            | EngineError::InvalidPublicKey
            | EngineError::PrivateKeyHex
            | EngineError::PrivateKeyLength
            | EngineError::UnknownScope
            | EngineError::UnknownScopeLayer
            | EngineError::UnknownDialecticTag
            | EngineError::UnknownOutcome
            | EngineError::ConfidenceOutOfRange
            | EngineError::RelevanceOutOfRange
            | EngineError::NegativeUsageCount
            | EngineError::TimestampOrder
            | EngineError::NoMessages => ErrorKind::InvalidArgument,
            EngineError::EmbeddingDimension => ErrorKind::Embedding,
            EngineError::NotInitialized => ErrorKind::NotInitialized,
            EngineError::SignatureHex | EngineError::SignatureLength => ErrorKind::Signature,
            EngineError::KeyDerivation
            | EngineError::Encryption
            | EngineError::CiphertextTooShort
            | EngineError::Authentication
            | EngineError::Base64
            | EngineError::Utf8 => ErrorKind::Crypto,
            EngineError::NoTextContent => ErrorKind::ParseExternal,
        }
    }

    /// The class of an error.
    #[verifier::when_used_as_spec(spec_kind)]
    pub fn kind(self) -> (res: ErrorKind)
        ensures
            res == self.spec_kind(),
    {
        match self {
            EngineError::DidFormat
            | EngineError::DidBase58
            | EngineError::DidTooShort
            | EngineError::DidMulticodec
            | EngineError::DidKeyLength
            | EngineError::InvalidPublicKey
            | EngineError::PrivateKeyHex
            | EngineError::PrivateKeyLength
            | EngineError::UnknownScope
            | EngineError::UnknownScopeLayer
            | EngineError::UnknownDialecticTag
            | EngineError::UnknownOutcome
            | EngineError::ConfidenceOutOfRange
            | EngineError::RelevanceOutOfRange
            | EngineError::NegativeUsageCount
            | EngineError::TimestampOrder
            | EngineError::NoMessages => ErrorKind::InvalidArgument,
            EngineError::EmbeddingDimension => ErrorKind::Embedding,
            EngineError::NotInitialized => ErrorKind::NotInitialized,
            EngineError::SignatureHex | EngineError::SignatureLength => ErrorKind::Signature,
            EngineError::KeyDerivation
            | EngineError::Encryption
            | EngineError::CiphertextTooShort
            | EngineError::Authentication
            | EngineError::Base64
            | EngineError::Utf8 => ErrorKind::Crypto,
            EngineError::NoTextContent => ErrorKind::ParseExternal,
        }
    }
}

} // verus!
