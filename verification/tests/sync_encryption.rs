use aes_gcm::aead::{Aead, KeyInit};
use base64::Engine;
use rebe_core::error::{EngineError, ErrorKind};
use rebe_core::sync::encryption::{
    decrypt, decrypt_json, derive_sync_key, encrypt, encrypt_json, encrypt_json_with_nonce, encrypt_with_nonce,
};

#[test]
fn test_derive_sync_key_deterministic() {
    let private_key = [42u8; 32];
    let key1 = derive_sync_key(&private_key).unwrap();
    let key2 = derive_sync_key(&private_key).unwrap();
    assert_eq!(key1, key2);
    assert_ne!(key1, [0u8; 32]);
}

#[test]
fn test_different_keys_different_output() {
    let key1 = derive_sync_key(&[1u8; 32]).unwrap();
    let key2 = derive_sync_key(&[2u8; 32]).unwrap();
    assert_ne!(key1, key2);
}

#[test]
fn test_encrypt_decrypt_roundtrip() {
    let key = derive_sync_key(&[99u8; 32]).unwrap();
    let plaintext = b"Hello, encrypted world!";

    let encrypted = encrypt(&key, plaintext).unwrap();
    assert_ne!(encrypted, plaintext.to_vec());
    assert!(encrypted.len() > plaintext.len());

    let decrypted = decrypt(&key, &encrypted).unwrap();
    assert_eq!(decrypted, plaintext.to_vec());
}

#[test]
fn test_encrypt_decrypt_korean() {
    let key = derive_sync_key(&[77u8; 32]).unwrap();
    let plaintext = "예산 3000만원 확정. 크리에이티브 방향성 논의 필요.";

    let encrypted = encrypt(&key, plaintext.as_bytes()).unwrap();
    let decrypted = decrypt(&key, &encrypted).unwrap();
    assert_eq!(String::from_utf8(decrypted).unwrap(), plaintext);
}

#[test]
fn test_wrong_key_fails() {
    let key1 = derive_sync_key(&[1u8; 32]).unwrap();
    let key2 = derive_sync_key(&[2u8; 32]).unwrap();

    let encrypted = encrypt(&key1, b"secret data").unwrap();
    let result = decrypt(&key2, &encrypted);
    assert!(result.is_err());
}

#[test]
fn test_tampered_data_fails() {
    let key = derive_sync_key(&[55u8; 32]).unwrap();
    let mut encrypted = encrypt(&key, b"important data").unwrap();

    if let Some(byte) = encrypted.last_mut() {
        *byte ^= 0xFF;
    }

    let result = decrypt(&key, &encrypted);
    assert!(result.is_err());
}

#[test]
fn test_json_roundtrip() {
    let key = derive_sync_key(&[88u8; 32]).unwrap();
    let json = r#"{"decisions":["예산 확정"],"summary":"회의 결과"}"#;

    let blob = encrypt_json(&key, json).unwrap();
    assert!(!blob.is_empty());

    let decrypted = decrypt_json(&key, &blob).unwrap();
    assert_eq!(decrypted, json);
}

#[test]
fn test_empty_data() {
    let key = derive_sync_key(&[11u8; 32]).unwrap();
    let encrypted = encrypt(&key, b"").unwrap();
    let decrypted = decrypt(&key, &encrypted).unwrap();
    assert!(decrypted.is_empty());
}

#[test]
fn test_large_data() {
    let key = derive_sync_key(&[33u8; 32]).unwrap();
    let large_data = vec![0xABu8; 100_000];

    let encrypted = encrypt(&key, &large_data).unwrap();
    let decrypted = decrypt(&key, &encrypted).unwrap();
    assert_eq!(decrypted, large_data);
}

#[test]
fn sync_key_is_hkdf_sha256_with_the_fixed_salt_and_info() {
    let seed = [42u8; 32];
    let hk = hkdf::Hkdf::<sha2::Sha256>::new(Some(b"rebe-sync-v1"), &seed);
    let mut expected = [0u8; 32];
    hk.expand(b"rebe-e2e-sync-aes256gcm", &mut expected).unwrap();
    assert_eq!(derive_sync_key(&seed).unwrap(), expected);
    assert_ne!(derive_sync_key(&seed).unwrap(), seed);
}

#[test]
fn envelope_is_nonce_then_ciphertext_then_tag() {
    let key = derive_sync_key(&[5u8; 32]).unwrap();
    let nonce = [9u8; 12];
    let envelope = encrypt_with_nonce(&key, &nonce, b"abc").unwrap();
    assert_eq!(envelope.len(), 12 + 3 + 16);
    assert_eq!(&envelope[..12], &nonce);
    let cipher = aes_gcm::Aes256Gcm::new_from_slice(&key).unwrap();
    let sealed = cipher.encrypt(aes_gcm::Nonce::from_slice(&nonce), b"abc".as_ref()).unwrap();
    assert_eq!(&envelope[12..], &sealed[..]);
    assert_eq!(decrypt(&key, &envelope).unwrap(), b"abc".to_vec());

    let random = encrypt(&key, b"abc").unwrap();
    assert_eq!(random.len(), 31);
    assert_eq!(decrypt(&key, &random).unwrap(), b"abc".to_vec());
}

#[test]
fn decrypt_names_each_failure() {
    let key = derive_sync_key(&[1u8; 32]).unwrap();
    let other = derive_sync_key(&[2u8; 32]).unwrap();
    assert_eq!(decrypt(&key, &[]), Err(EngineError::CiphertextTooShort));
    assert_eq!(decrypt(&key, &[0u8; 27]), Err(EngineError::CiphertextTooShort));
    assert_eq!(decrypt(&key, &[0u8; 28]), Err(EngineError::Authentication));
    let envelope = encrypt(&key, b"secret data").unwrap();
    assert_eq!(decrypt(&other, &envelope), Err(EngineError::Authentication));
    for i in 0..envelope.len() {
        let mut tampered = envelope.clone();
        tampered[i] ^= 0x01;
        assert_eq!(decrypt(&key, &tampered), Err(EngineError::Authentication));
    }
    assert_eq!(EngineError::Authentication.kind(), ErrorKind::Crypto);
}

#[test]
fn json_envelope_is_base64_and_names_each_failure() {
    let key = derive_sync_key(&[3u8; 32]).unwrap();
    let nonce = [1u8; 12];
    let blob = encrypt_json_with_nonce(&key, &nonce, "{}").unwrap();
    let raw = encrypt_with_nonce(&key, &nonce, b"{}").unwrap();
    assert_eq!(blob, base64::engine::general_purpose::STANDARD.encode(&raw));
    assert_eq!(decrypt_json(&key, &blob).unwrap(), "{}");

    assert_eq!(decrypt_json(&key, "not base64!"), Err(EngineError::Base64));
    assert_eq!(decrypt_json(&key, "AAAA"), Err(EngineError::CiphertextTooShort));
    let other = derive_sync_key(&[4u8; 32]).unwrap();
    assert_eq!(decrypt_json(&other, &blob), Err(EngineError::Authentication));
    let not_text = encrypt(&key, &[0xff, 0xfe]).unwrap();
    let not_text_blob = base64::engine::general_purpose::STANDARD.encode(&not_text);
    assert_eq!(decrypt_json(&key, &not_text_blob), Err(EngineError::Utf8));
    assert_eq!(encrypt_json(&key, "").map(|b| decrypt_json(&key, &b)), Ok(Ok(String::new())));
}
