use lib_crypto::symmetric::hybrid::{
    decrypt_with_keypair, encrypt_with_encapsulation, hybrid_decrypt, hybrid_encrypt,
};
use lib_crypto::{decrypt_data, encrypt_data, hash_blake3, CryptoError, KeyPair};

#[test]
fn data_round_trip() {
    let key = [7u8; 32];
    let ct = encrypt_data(b"some data", &key).unwrap();
    assert_eq!(ct.len(), 12 + 9 + 16);
    assert_ne!(&ct[12..21], b"some data");
    assert_eq!(decrypt_data(&ct, &key), Ok(b"some data".to_vec()));
}

#[test]
fn data_decryption_errors() {
    let key = [7u8; 32];
    let ct = encrypt_data(b"some data", &key).unwrap();
    assert_eq!(decrypt_data(&ct[..11], &key), Err(CryptoError::CiphertextTooShort));
    assert_eq!(decrypt_data(&ct, &[8u8; 32]), Err(CryptoError::DecryptionFailed));
    let mut t = ct.clone();
    t[0] ^= 1;
    assert_eq!(decrypt_data(&t, &key), Err(CryptoError::DecryptionFailed));
    // a nonce alone holds no tag
    assert_eq!(decrypt_data(&ct[..12], &key), Err(CryptoError::DecryptionFailed));
}

#[test]
fn hybrid_envelope_layout() {
    let kp = KeyPair::generate().unwrap();
    let out = hybrid_encrypt(b"abc", &kp.public_key).unwrap();
    assert_eq!(out.len(), 32 + 12 + 3 + 16);
    assert_ne!(&out[..32], &hash_blake3(&kp.public_key.key_id)[..]);
}

#[test]
fn hybrid_decrypt_always_fails() {
    let kp = KeyPair::generate().unwrap();
    assert_eq!(hybrid_decrypt(&[0u8; 31], &kp), Err(CryptoError::EncryptedDataTooShort));
    assert_eq!(hybrid_decrypt(&[0u8; 32], &kp), Err(CryptoError::HybridKemUnavailable));
    let out = hybrid_encrypt(b"abc", &kp.public_key).unwrap();
    assert_eq!(hybrid_decrypt(&out, &kp), Err(CryptoError::HybridKemUnavailable));
}

#[test]
fn encapsulation_based_encryption_matches_keypair_decryption() {
    let kp = KeyPair::generate().unwrap();
    let enc = kp.encapsulate().unwrap();
    let ct = encrypt_with_encapsulation(b"payload", b"meta", &enc).unwrap();
    assert_eq!(&ct[..768], &enc.ciphertext[..]);
    assert_eq!(ct.len(), 768 + 12 + 7 + 4 + 16);
    assert_eq!(decrypt_with_keypair(&ct, b"meta", &kp), Ok(b"payload".to_vec()));
}
