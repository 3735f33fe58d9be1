use rebe_core::did::identity::DidIdentity;
use rebe_core::did::resolver::{public_key_to_did, PublicKey};
use rebe_core::error::EngineError;

#[test]
fn test_generate_and_load_identity() {
    let mut identity = DidIdentity::new();

    // First init: no stored key, so a new key pair is generated.
    let (info1, files) = identity.initialize(None).unwrap();
    assert!(info1.did.starts_with("did:key:z6Mk"));
    assert_eq!(info1.key_type, "Ed25519");
    assert_eq!(info1.public_key_hex.len(), 64);
    let files = files.expect("a new identity has files to store");

    // Reload from what was stored: same DID, nothing more to store.
    let mut identity2 = DidIdentity::new();
    let (info2, files2) = identity2.initialize(Some(&files.private_key)).unwrap();
    assert_eq!(info1.did, info2.did);
    assert!(files2.is_none());
}

#[test]
fn test_export_import_keypair() {
    let mut id1 = DidIdentity::new();
    id1.initialize(None).unwrap();
    let exported = id1.export_keypair().unwrap();

    let mut id2 = DidIdentity::new();
    let (info2, _files) = id2.import_keypair(&exported.private_key_hex).unwrap();

    assert_eq!(exported.did, info2.did);
}

#[test]
fn test_has_identity() {
    let mut identity = DidIdentity::new();
    assert!(!identity.is_initialized());

    identity.initialize(None).unwrap();
    assert!(identity.is_initialized());
}

#[test]
fn new_identity_files_hold_seed_and_metadata() {
    let mut identity = DidIdentity::new();
    let seed = [0x2Au8; 32];
    let (info, files) = identity
        .initialize_with(None, seed, "2026-02-23T10:00:00+00:00".to_string())
        .unwrap();
    let files = files.unwrap();
    let key = PublicKey::from_seed(&seed);
    assert_eq!(files.private_key, seed);
    assert_eq!(files.did, public_key_to_did(&key));
    assert_eq!(files.public_key_hex, hex::encode(key.as_bytes()));
    assert_eq!(files.created_at, "2026-02-23T10:00:00+00:00");
    assert_eq!(info.did, files.did);
    assert_eq!(info.public_key_hex, files.public_key_hex);
    assert_eq!(info.created_at, "");
    assert_eq!(info.key_type, "Ed25519");
    assert_eq!(identity.get_did().unwrap(), files.did);
    assert_eq!(identity.get_signing_key().unwrap(), seed);
    assert_eq!(identity.get_verifying_key().unwrap(), key);
}

#[test]
fn stored_key_must_be_32_bytes() {
    let mut identity = DidIdentity::new();
    let res = identity.initialize(Some(&[1u8; 31]));
    assert_eq!(res.unwrap_err(), EngineError::PrivateKeyLength);
    assert!(!identity.is_initialized());
    let res = identity.initialize(Some(&[1u8; 33]));
    assert_eq!(res.unwrap_err(), EngineError::PrivateKeyLength);
    let res = identity.initialize(Some(&[]));
    assert_eq!(res.unwrap_err(), EngineError::PrivateKeyLength);
    assert!(identity.initialize(Some(&[1u8; 32])).is_ok());
}

#[test]
fn initialized_identity_stays_as_it_is() {
    let mut identity = DidIdentity::new();
    let (first, _) = identity.initialize(Some(&[7u8; 32])).unwrap();
    // Neither another stored key nor a missing one changes it.
    let (second, files) = identity.initialize(Some(&[8u8; 32])).unwrap();
    assert_eq!(first.did, second.did);
    assert!(files.is_none());
    let (third, files) = identity.initialize(None).unwrap();
    assert_eq!(first.did, third.did);
    assert!(files.is_none());
    // A stored key of a bad length is not even looked at.
    assert!(identity.initialize(Some(&[1u8; 3])).is_ok());
}

#[test]
fn uninitialized_identity_reports_not_initialized() {
    let identity = DidIdentity::new();
    assert_eq!(identity.get_did().unwrap_err(), EngineError::NotInitialized);
    assert_eq!(identity.get_signing_key().unwrap_err(), EngineError::NotInitialized);
    assert_eq!(identity.get_verifying_key().unwrap_err(), EngineError::NotInitialized);
    assert_eq!(identity.export_keypair().unwrap_err(), EngineError::NotInitialized);
}

#[test]
fn export_holds_hex_of_seed_and_key() {
    let mut identity = DidIdentity::new();
    let seed = [9u8; 32];
    identity.initialize(Some(&seed)).unwrap();
    let exported = identity.export_keypair_at("2026-03-01T00:00:00+00:00".to_string()).unwrap();
    assert_eq!(exported.private_key_hex, hex::encode(seed));
    assert_eq!(exported.public_key_hex, hex::encode(PublicKey::from_seed(&seed).as_bytes()));
    assert_eq!(exported.did, identity.get_did().unwrap());
    assert_eq!(exported.key_type, "Ed25519");
    assert_eq!(exported.exported_at, "2026-03-01T00:00:00+00:00");
}

#[test]
fn import_replaces_identity_and_refuses_bad_keys() {
    let mut identity = DidIdentity::new();
    identity.initialize(Some(&[1u8; 32])).unwrap();
    let before = identity.get_did().unwrap();

    assert_eq!(identity.import_keypair("not hex").unwrap_err(), EngineError::PrivateKeyHex);
    assert_eq!(identity.import_keypair("abc").unwrap_err(), EngineError::PrivateKeyHex);
    assert_eq!(identity.import_keypair("00ff").unwrap_err(), EngineError::PrivateKeyLength);
    assert_eq!(identity.import_keypair(&"00".repeat(33)).unwrap_err(), EngineError::PrivateKeyLength);
    assert_eq!(identity.import_keypair("").unwrap_err(), EngineError::PrivateKeyLength);
    assert_eq!(identity.get_did().unwrap(), before);

    let (info, files) = identity
        .import_keypair_at(&"02".repeat(32), "2026-03-01T00:00:00+00:00".to_string())
        .unwrap();
    assert_ne!(info.did, before);
    assert_eq!(identity.get_did().unwrap(), info.did);
    assert_eq!(identity.get_signing_key().unwrap(), [2u8; 32]);
    assert_eq!(files.private_key, [2u8; 32]);
    assert_eq!(files.did, info.did);
    assert_eq!(files.created_at, "2026-03-01T00:00:00+00:00");
    // Upper-case hexadecimal text holds the same key.
    let (upper, _) = identity.import_keypair(&"AB".repeat(32)).unwrap();
    let (lower, _) = identity.import_keypair(&"ab".repeat(32)).unwrap();
    assert_eq!(upper.did, lower.did);
}
