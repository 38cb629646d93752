use aes_gcm::aead::{Aead, KeyInit};
use sessioncast::crypto::{decrypt, encrypt, CryptoError, IV_LEN, TAG_LEN};

#[test]
fn test_encrypt_decrypt() {
    let key = b"01234567890123456789012345678901"; // 32 bytes
    let data = b"Hello, World!";

    let encrypted = encrypt(data, key).unwrap();
    assert!(encrypted.len() > data.len());

    let decrypted = decrypt(&encrypted, key).unwrap();
    assert_eq!(decrypted, data);
}

#[test]
fn encrypted_length_is_nonce_plus_data_plus_tag() {
    let key = [7u8; 32];
    let data = b"Hello, World!";
    let encrypted = encrypt(data, &key).unwrap();
    assert_eq!(encrypted.len(), IV_LEN + data.len() + TAG_LEN);
    assert_eq!(encrypted.len(), 12 + 13 + 16);
}

#[test]
fn encrypt_draws_a_fresh_nonce() {
    let key = [1u8; 32];
    let a = encrypt(b"same", &key).unwrap();
    let b = encrypt(b"same", &key).unwrap();
    assert_ne!(a[..IV_LEN], b[..IV_LEN]);
    assert_eq!(decrypt(&a, &key).unwrap(), b"same");
    assert_eq!(decrypt(&b, &key).unwrap(), b"same");
}

#[test]
fn encrypt_rejects_short_key() {
    assert_eq!(encrypt(b"x", b"short"), Err(CryptoError::InvalidKey));
}

#[test]
fn decrypt_rejects_short_key() {
    let data = [0u8; 40];
    assert_eq!(decrypt(&data, b"short"), Err(CryptoError::InvalidKey));
}

#[test]
fn decrypt_rejects_data_shorter_than_nonce() {
    let key = [0u8; 32];
    assert_eq!(decrypt(&[1, 2, 3], &key), Err(CryptoError::DataTooShort));
    // data too short is reported before a bad key
    assert_eq!(decrypt(&[1, 2, 3], b"bad"), Err(CryptoError::DataTooShort));
}

#[test]
fn decrypt_with_wrong_key_fails() {
    let key = [3u8; 32];
    let other = [4u8; 32];
    let encrypted = encrypt(b"secret", &key).unwrap();
    assert_eq!(decrypt(&encrypted, &other), Err(CryptoError::DecryptionFailed));
}

#[test]
fn decrypt_detects_tampering() {
    let key = [5u8; 32];
    let mut encrypted = encrypt(b"payload", &key).unwrap();
    let last = encrypted.len() - 1;
    encrypted[last] ^= 1;
    assert_eq!(decrypt(&encrypted, &key), Err(CryptoError::DecryptionFailed));
}

#[test]
fn nonce_only_input_fails_to_decrypt() {
    let key = [5u8; 32];
    assert_eq!(decrypt(&[0u8; 12], &key), Err(CryptoError::DecryptionFailed));
}

#[test]
fn empty_plaintext_round_trips() {
    let key = [9u8; 32];
    let encrypted = encrypt(b"", &key).unwrap();
    assert_eq!(encrypted.len(), IV_LEN + TAG_LEN);
    assert_eq!(decrypt(&encrypted, &key).unwrap(), Vec::<u8>::new());
}

#[test]
fn layout_is_nonce_then_tag_then_ciphertext() {
    let key = [11u8; 32];
    let data = b"layout check";
    let out = encrypt(data, &key).unwrap();
    let iv = &out[..IV_LEN];
    let tag = &out[IV_LEN..IV_LEN + TAG_LEN];
    let ct = &out[IV_LEN + TAG_LEN..];
    assert_eq!(ct.len(), data.len());
    let mut sealed = ct.to_vec();
    sealed.extend_from_slice(tag);
    let cipher = aes_gcm::Aes256Gcm::new_from_slice(&key).unwrap();
    let plain = cipher.decrypt(aes_gcm::Nonce::from_slice(iv), sealed.as_slice()).unwrap();
    assert_eq!(plain, data);
}
