//! The device's identity: one Ed25519 key pair and the DID that names it.
//!
//! The identity lives in memory. Reading and writing the key file is the
//! host's part: it hands in the bytes it found and gets back what to store.

use vstd::prelude::*;
use vstd::string::*;
use crate::did::resolver::{public_key_to_did, spec_did_to_verifying_key, spec_public_key_to_did, PublicKey};
use crate::encoding::{hex_decode, hex_encode, spec_hex_decode, spec_hex_encode};
use crate::error::EngineError;
use crate::primitives::{ed25519_generate_seed, now_rfc3339, spec_ed25519_public_key};
use crate::text::array32_from_slice;

verus! {

/// The public face of an identity.
#[derive(Clone, Debug)]
pub struct IdentityInfo {
    pub did: String,
    pub public_key_hex: String,
    pub created_at: String,
    pub key_type: String,
}

/// A key pair in the form in which it moves to another device. It holds the
/// secret seed.
#[derive(Clone, Debug)]
pub struct ExportedKeypair {
    pub did: String,
    pub private_key_hex: String,
    pub public_key_hex: String,
    pub key_type: String,
    pub exported_at: String,
}

/// What the host has to store for a new or imported identity: the 32 bytes
/// of the secret seed, and the metadata that goes beside them.
#[derive(Clone, Debug)]
pub struct KeyFiles {
    pub private_key: [u8; 32],
    pub did: String,
    pub public_key_hex: String,
    pub created_at: String,
}

struct IdentityInner {
    seed: [u8; 32],
    verifying_key: PublicKey,
    did: String,
}

/// The identity of a device: empty until it is initialized, then a secret
/// seed with the public key and the DID that follow from it.
pub struct DidIdentity {
    inner: Option<IdentityInner>,
}

/// What an initialized identity holds.
pub struct IdentityView {
    pub seed: Seq<u8>,
    pub public_key: Seq<u8>,
    pub did: Seq<char>,
}

/// The identity that follows from a secret seed.
pub open spec fn identity_of_seed(seed: Seq<u8>) -> IdentityView {
    IdentityView {
        seed,
        public_key: spec_ed25519_public_key(seed),
        did: spec_public_key_to_did(spec_ed25519_public_key(seed)),
    }
}

/// Whether the DID of `v` resolves to its public key.
pub open spec fn did_resolves(v: IdentityView) -> bool {
    spec_did_to_verifying_key(v.did) == Ok::<Seq<u8>, EngineError>(v.public_key)
}

/// Whether `info` describes the identity `v`.
pub open spec fn info_describes(info: IdentityInfo, v: IdentityView) -> bool {
    &&& info.did@ == v.did
    &&& info.public_key_hex@ == spec_hex_encode(v.public_key)
    &&& info.created_at@ == Seq::<char>::empty()
    &&& info.key_type@ == "Ed25519"@
}

/// Whether `files` is what has to be stored for the identity `v`, created at
/// `created_at`.
pub open spec fn files_store(files: KeyFiles, v: IdentityView, created_at: Seq<char>) -> bool {
    &&& files.private_key@ == v.seed
    &&& files.did@ == v.did
    &&& files.public_key_hex@ == spec_hex_encode(v.public_key)
    &&& files.created_at@ == created_at
}

/// The secret seed that hexadecimal text holds.
pub open spec fn spec_parse_private_key(private_key_hex: Seq<char>) -> Result<Seq<u8>, EngineError> {
    match spec_hex_decode(private_key_hex) {
        None => Err(EngineError::PrivateKeyHex),
        Some(bytes) => if bytes.len() != 32 {
            Err(EngineError::PrivateKeyLength)
        } else {
            Ok(bytes)
        },
    }
}

impl View for DidIdentity {
    type V = Option<IdentityView>;

    closed spec fn view(&self) -> Option<IdentityView> {
        match self.inner {
            None => None,
            Some(i) => Some(i@),
        }
    }
}

impl View for IdentityInner {
    type V = IdentityView;

    closed spec fn view(&self) -> IdentityView {
        IdentityView { seed: self.seed@, public_key: self.verifying_key@, did: self.did@ }
    }
}

fn make_info(inner: &IdentityInner) -> (res: IdentityInfo)
    ensures
        info_describes(res, inner@),
{
    IdentityInfo {
        did: inner.did.clone(),
        public_key_hex: hex_encode(inner.verifying_key.as_bytes().as_slice()),
        created_at: String::new(),
        key_type: String::from_str("Ed25519"),
    }
}

fn make_inner(seed: [u8; 32]) -> (res: IdentityInner)
    ensures
        res@ == identity_of_seed(seed@),
        did_resolves(res@),
{
    let verifying_key = PublicKey::from_seed(&seed);
    let did = public_key_to_did(&verifying_key);
    IdentityInner { seed, verifying_key, did }
}

fn make_files(inner: &IdentityInner, created_at: String) -> (res: KeyFiles)
    ensures
        files_store(res, inner@, created_at@),
{
    KeyFiles {
        private_key: inner.seed,
        did: inner.did.clone(),
        public_key_hex: hex_encode(inner.verifying_key.as_bytes().as_slice()),
        created_at,
    }
}

impl DidIdentity {
    #[verifier::type_invariant]
    spec fn follows_from_seed(self) -> bool {
        self.inner matches Some(i) ==> i@ == identity_of_seed(i.seed@) && did_resolves(i@)
    }

    /// An identity that holds no key yet.
    pub fn new() -> (res: DidIdentity)
        ensures
            res@ is None,
    {
        DidIdentity { inner: None }
    }

    /// Whether the identity holds a key.
    pub fn is_initialized(&self) -> (res: bool)
        ensures
            res == self@ is Some,
    {
        self.inner.is_some()
    }

    /// Loads the stored key or takes the fresh one.
    ///
    /// An identity that holds a key stays as it is. Otherwise the stored
    /// key, where there is one, becomes the identity if it is exactly 32
    /// bytes long and is refused if not; with no stored key, `fresh_seed`
    /// becomes the identity and the files to store for it are returned.
    pub fn initialize_with(
        &mut self,
        stored_key: Option<&[u8]>,
        fresh_seed: [u8; 32],
        now: String,
    ) -> (res: Result<(IdentityInfo, Option<KeyFiles>), EngineError>)
        ensures
            match (old(self)@, stored_key) {
                (Some(v), _) => {
                    &&& final(self)@ == old(self)@
                    &&& res matches Ok((info, None))
                    &&& info_describes(info, v)
                },
                (None, Some(bytes)) => if bytes@.len() == 32 {
                    &&& final(self)@ == Some(identity_of_seed(bytes@))
                    &&& res matches Ok((info, None))
                    &&& info_describes(info, identity_of_seed(bytes@))
                } else {
                    &&& final(self)@ is None
                    &&& res == Err::<(IdentityInfo, Option<KeyFiles>), EngineError>(EngineError::PrivateKeyLength)
                },
                (None, None) => {
                    &&& final(self)@ == Some(identity_of_seed(fresh_seed@))
                    &&& res matches Ok((info, Some(files)))
                    &&& info_describes(info, identity_of_seed(fresh_seed@))
                    &&& files_store(files, identity_of_seed(fresh_seed@), now@)
                },
            },
    {
        proof {
            use_type_invariant(&*self);
        }
        if let Some(i) = &self.inner {
            return Ok((make_info(i), None));
        }
        match stored_key {
            Some(bytes) => {
                if bytes.len() != 32 {
                    return Err(EngineError::PrivateKeyLength);
                }
                let seed = array32_from_slice(bytes, 0);
                assert(bytes@.subrange(0, 32) == bytes@);
                let inner = make_inner(seed);
                let info = make_info(&inner);
                self.inner = Some(inner);
                Ok((info, None))
            },
            None => {
                let inner = make_inner(fresh_seed);
                let info = make_info(&inner);
                let files = make_files(&inner, now);
                self.inner = Some(inner);
                Ok((info, Some(files)))
            },
        }
    }

    /// Loads the stored key, or generates a new one from the operating
    /// system's random source where there is none.
    ///
    /// An identity that holds a key stays as it is. A stored key that is not
    /// exactly 32 bytes long is refused. Files to store are returned exactly
    /// when a new key was generated.
    pub fn initialize(&mut self, stored_key: Option<&[u8]>) -> (res: Result<(IdentityInfo, Option<KeyFiles>), EngineError>)
        ensures
            match (old(self)@, stored_key) {
                (Some(v), _) => {
                    &&& final(self)@ == old(self)@
                    &&& res matches Ok((info, None))
                    &&& info_describes(info, v)
                },
                (None, Some(bytes)) => if bytes@.len() == 32 {
                    &&& final(self)@ == Some(identity_of_seed(bytes@))
                    &&& res matches Ok((info, None))
                    &&& info_describes(info, identity_of_seed(bytes@))
                } else {
                    &&& final(self)@ is None
                    &&& res == Err::<(IdentityInfo, Option<KeyFiles>), EngineError>(EngineError::PrivateKeyLength)
                },
                (None, None) => {
                    &&& final(self)@ matches Some(v)
                    &&& v == identity_of_seed(v.seed)
                    &&& v.seed.len() == 32
                    &&& res matches Ok((info, Some(files)))
                    &&& info_describes(info, v)
                    &&& files_store(files, v, files.created_at@)
                },
            },
    {
        let fresh_seed = ed25519_generate_seed();
        let now = now_rfc3339();
        self.initialize_with(stored_key, fresh_seed, now)
    }

    /// The DID of the identity.
    pub fn get_did(&self) -> (res: Result<String, EngineError>)
        ensures
            match res {
                Ok(did) => {
                    &&& self@ matches Some(v)
                    &&& did@ == v.did
                    &&& v == identity_of_seed(v.seed)
                    &&& did_resolves(v)
                },
                Err(e) => self@ is None && e == EngineError::NotInitialized,
            },
    {
        proof {
            use_type_invariant(self);
        }
        match &self.inner {
            Some(i) => Ok(i.did.clone()),
            None => Err(EngineError::NotInitialized),
        }
    }

    /// The secret seed of the identity, from which it signs.
    pub fn get_signing_key(&self) -> (res: Result<[u8; 32], EngineError>)
        ensures
            match res {
                Ok(seed) => self@ matches Some(v) && seed@ == v.seed && v == identity_of_seed(v.seed),
                Err(e) => self@ is None && e == EngineError::NotInitialized,
            },
    {
        proof {
            use_type_invariant(self);
        }
        match &self.inner {
            Some(i) => Ok(i.seed),
            None => Err(EngineError::NotInitialized),
        }
    }

    /// The public key of the identity.
    pub fn get_verifying_key(&self) -> (res: Result<PublicKey, EngineError>)
        ensures
            match res {
                Ok(key) => self@ matches Some(v) && key@ == v.public_key && v == identity_of_seed(v.seed),
                Err(e) => self@ is None && e == EngineError::NotInitialized,
            },
    {
        proof {
            use_type_invariant(self);
        }
        match &self.inner {
            Some(i) => Ok(i.verifying_key),
            None => Err(EngineError::NotInitialized),
        }
    }

    /// The key pair in its export form, stamped with `exported_at`.
    pub fn export_keypair_at(&self, exported_at: String) -> (res: Result<ExportedKeypair, EngineError>)
        ensures
            match res {
                Ok(k) => {
                    &&& self@ matches Some(v)
                    &&& k.did@ == v.did
                    &&& k.private_key_hex@ == spec_hex_encode(v.seed)
                    &&& k.public_key_hex@ == spec_hex_encode(v.public_key)
                    &&& k.key_type@ == "Ed25519"@
                    &&& k.exported_at@ == exported_at@
                    &&& spec_parse_private_key(k.private_key_hex@) == Ok::<Seq<u8>, EngineError>(v.seed)
                },
                Err(e) => self@ is None && e == EngineError::NotInitialized,
            },
    {
        match &self.inner {
            Some(i) => {
                proof {
                    crate::encoding::lemma_hex_round_trip(i.seed@);
                }
                Ok(
                    ExportedKeypair {
                        did: i.did.clone(),
                        private_key_hex: hex_encode(i.seed.as_slice()),
                        public_key_hex: hex_encode(i.verifying_key.as_bytes().as_slice()),
                        key_type: String::from_str("Ed25519"),
                        exported_at,
                    },
                )
            },
            None => Err(EngineError::NotInitialized),
        }
    }

    /// The key pair in its export form, stamped with the current time.
    pub fn export_keypair(&self) -> (res: Result<ExportedKeypair, EngineError>)
        ensures
            match res {
                Ok(k) => {
                    &&& self@ matches Some(v)
                    &&& k.did@ == v.did
                    &&& k.private_key_hex@ == spec_hex_encode(v.seed)
                    &&& k.public_key_hex@ == spec_hex_encode(v.public_key)
                    &&& k.key_type@ == "Ed25519"@
                    &&& spec_parse_private_key(k.private_key_hex@) == Ok::<Seq<u8>, EngineError>(v.seed)
                },
                Err(e) => self@ is None && e == EngineError::NotInitialized,
            },
    {
        let now = now_rfc3339();
        self.export_keypair_at(now)
    }

    /// Replaces the identity by the one whose secret seed `private_key_hex`
    /// holds, and returns the files to store for it, stamped with `now`.
    ///
    /// Text that is not hexadecimal, or not 32 bytes of it, is refused and
    /// leaves the identity as it was.
    pub fn import_keypair_at(&mut self, private_key_hex: &str, now: String) -> (res: Result<(IdentityInfo, KeyFiles), EngineError>)
        ensures
            match spec_parse_private_key(private_key_hex@) {
                Ok(seed) => {
                    &&& final(self)@ == Some(identity_of_seed(seed))
                    &&& res matches Ok((info, files))
                    &&& info_describes(info, identity_of_seed(seed))
                    &&& files_store(files, identity_of_seed(seed), now@)
                },
                Err(e) => {
                    &&& final(self)@ == old(self)@
                    &&& res == Err::<(IdentityInfo, KeyFiles), EngineError>(e)
                },
            },
    {
        let key_bytes = match hex_decode(private_key_hex) {
            Some(bytes) => bytes,
            None => {
                return Err(EngineError::PrivateKeyHex);
            },
        };
        if key_bytes.len() != 32 {
            return Err(EngineError::PrivateKeyLength);
        }
        let seed = array32_from_slice(key_bytes.as_slice(), 0);
        assert(key_bytes@.subrange(0, 32) == key_bytes@);
        let inner = make_inner(seed);
        let info = make_info(&inner);
        let files = make_files(&inner, now);
        self.inner = Some(inner);
        Ok((info, files))
    }

    /// Replaces the identity by the one whose secret seed `private_key_hex`
    /// holds, and returns the files to store for it, stamped with the
    /// current time.
    pub fn import_keypair(&mut self, private_key_hex: &str) -> (res: Result<(IdentityInfo, KeyFiles), EngineError>)
        ensures
            match spec_parse_private_key(private_key_hex@) {
                Ok(seed) => {
                    &&& final(self)@ == Some(identity_of_seed(seed))
                    &&& res matches Ok((info, files))
                    &&& info_describes(info, identity_of_seed(seed))
                    &&& files_store(files, identity_of_seed(seed), files.created_at@)
                },
                Err(e) => {
                    &&& final(self)@ == old(self)@
                    &&& res == Err::<(IdentityInfo, KeyFiles), EngineError>(e)
                },
            },
    {
        let now = now_rfc3339();
        self.import_keypair_at(private_key_hex, now)
    }
}

} // verus!
