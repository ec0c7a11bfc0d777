use lib_crypto::symmetric::chacha20::encrypt_data_with_nonce;
use lib_crypto::symmetric::hybrid::{encrypt_with_encapsulation_and_nonce, hybrid_encrypt_with_key};
use lib_crypto::{decrypt_data, hash_blake3, CryptoError, KeyPair};

#[test]
fn signatures_carry_the_given_timestamp() {
    let kp = KeyPair::generate().unwrap();
    let s = kp.sign_at(b"m", 1_700_000_000).unwrap();
    assert_eq!(s.timestamp, 1_700_000_000);
    assert_eq!(s.signature, kp.sign_at(b"m", 5).unwrap().signature);
    let e = kp.sign_ed25519_at(b"m", 42).unwrap();
    assert_eq!(e.timestamp, 42);
    assert_eq!(kp.verify(&e, b"m"), Ok(true));
    let mut broken = kp.clone();
    broken.private_key.dilithium_sk.clear();
    assert_eq!(broken.sign_at(b"m", 1).unwrap_err(), CryptoError::InvalidDilithiumSecretKey);
}

#[test]
fn clock_timestamps_are_recent() {
    let kp = KeyPair::generate().unwrap();
    let s = kp.sign(b"m").unwrap();
    assert!(s.timestamp > 1_600_000_000);
}

#[test]
fn data_encryption_uses_the_given_nonce() {
    let key = [3u8; 32];
    let nonce = [9u8; 12];
    let out = encrypt_data_with_nonce(b"hello", &key, &nonce).unwrap();
    assert_eq!(&out[..12], &nonce);
    assert_eq!(out.len(), 12 + 5 + 16);
    assert_eq!(out, encrypt_data_with_nonce(b"hello", &key, &nonce).unwrap());
    assert_ne!(out, encrypt_data_with_nonce(b"hello", &key, &[8u8; 12]).unwrap());
    assert_eq!(decrypt_data(&out, &key), Ok(b"hello".to_vec()));
}

#[test]
fn hybrid_encryption_uses_the_given_key_and_nonce() {
    let kp = KeyPair::generate().unwrap();
    let key = [5u8; 32];
    let nonce = [6u8; 12];
    let out = hybrid_encrypt_with_key(b"data", &kp.public_key, &key, &nonce).unwrap();
    let mut key_data = kp.public_key.key_id.to_vec();
    key_data.extend_from_slice(&key);
    assert_eq!(&out[..32], &hash_blake3(&key_data)[..]);
    assert_eq!(&out[32..44], &nonce);
    assert_eq!(decrypt_data(&out[32..], &key), Ok(b"data".to_vec()));
}

#[test]
fn encapsulated_encryption_uses_the_given_nonce() {
    let kp = KeyPair::generate().unwrap();
    let enc = kp.encapsulate().unwrap();
    let nonce = [1u8; 12];
    let ct = encrypt_with_encapsulation_and_nonce(b"p", b"ad", &enc, &nonce).unwrap();
    assert_eq!(&ct[..768], &enc.ciphertext[..]);
    assert_eq!(&ct[768..780], &nonce);
    assert_eq!(kp.decrypt(&ct, b"ad"), Ok(b"p".to_vec()));
}
