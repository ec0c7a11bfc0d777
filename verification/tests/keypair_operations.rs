use lib_crypto::keypair::operations::KEM_KDF_INFO;
use lib_crypto::types::{Encapsulation, Signature, SignatureAlgorithm};
use lib_crypto::{CryptoError, KeyPair, ZkCircuit};

fn rfc8032_keypair() -> KeyPair {
    let mut kp = KeyPair::generate().unwrap();
    kp.private_key.ed25519_sk = vec![
        0x9d, 0x61, 0xb1, 0x9d, 0xef, 0xfd, 0x5a, 0x60, 0xba, 0x84, 0x4a, 0xf4, 0x92, 0xec, 0x2c,
        0xc4, 0x44, 0x49, 0xc5, 0x69, 0x7b, 0x32, 0x69, 0x19, 0x70, 0x3b, 0xac, 0x03, 0x1c, 0xae,
        0x7f, 0x60,
    ];
    kp.public_key.ed25519_pk = vec![
        0xd7, 0x5a, 0x98, 0x01, 0x82, 0xb1, 0x0a, 0xb7, 0xd5, 0x4b, 0xfe, 0xd3, 0xc9, 0x64, 0x07,
        0x3a, 0x0e, 0xe1, 0x72, 0xf3, 0xda, 0xa6, 0x23, 0x25, 0xaf, 0x02, 0x1a, 0x68, 0xf7, 0x07,
        0x51, 0x1a,
    ];
    kp
}

#[test]
fn generated_keypair_has_expected_sizes_and_key_id() {
    let kp = KeyPair::generate().unwrap();
    assert_eq!(kp.public_key.dilithium_pk.len(), 1312);
    assert_eq!(kp.private_key.dilithium_sk.len(), 2560);
    assert_eq!(kp.public_key.kyber_pk.len(), 800);
    assert_eq!(kp.private_key.kyber_sk.len(), 1632);
    assert_eq!(kp.public_key.ed25519_pk.len(), 32);
    assert_eq!(kp.private_key.ed25519_sk.len(), 32);
    assert_eq!(kp.private_key.master_seed.len(), 32);
    assert_eq!(kp.public_key.key_id, lib_crypto::hash_blake3(&kp.public_key.dilithium_pk));
}

#[test]
fn ed25519_signature_matches_rfc8032_and_verifies() {
    let kp = rfc8032_keypair();
    let sig = kp.sign_ed25519(b"").unwrap();
    let expected: Vec<u8> = vec![
        0xe5, 0x56, 0x43, 0x00, 0xc3, 0x60, 0xac, 0x72, 0x90, 0x86, 0xe2, 0xcc, 0x80, 0x6e, 0x82,
        0x8a, 0x84, 0x87, 0x7f, 0x1e, 0xb8, 0xe5, 0xd9, 0x74, 0xd8, 0x73, 0xe0, 0x65, 0x22, 0x49,
        0x01, 0x55, 0x5f, 0xb8, 0x82, 0x15, 0x90, 0xa3, 0x3b, 0xac, 0xc6, 0x1e, 0x39, 0x70, 0x1c,
        0xf9, 0xb4, 0x6b, 0xd2, 0x5b, 0xf5, 0xf0, 0x59, 0x5b, 0xbe, 0x24, 0x65, 0x51, 0x41, 0x43,
        0x8e, 0x7a, 0x10, 0x0b,
    ];
    assert_eq!(sig.signature, expected);
    assert_eq!(sig.algorithm, SignatureAlgorithm::Ed25519);
    assert_eq!(kp.verify(&sig, b""), Ok(true));
    assert_eq!(kp.verify(&sig, b"x"), Ok(false));
}

#[test]
fn ed25519_round_trip_on_generated_keys() {
    let kp = KeyPair::generate().unwrap();
    let sig = kp.sign_ed25519(b"hello").unwrap();
    assert_eq!(sig.signature.len(), 64);
    assert_eq!(kp.verify(&sig, b"hello"), Ok(true));
}

#[test]
fn ed25519_malformed_inputs_are_rejected() {
    let mut kp = KeyPair::generate().unwrap();
    let mut sig = kp.sign_ed25519(b"hello").unwrap();
    sig.signature.pop();
    assert_eq!(kp.verify(&sig, b"hello"), Ok(false));
    let mut sig2 = kp.sign_ed25519(b"hello").unwrap();
    sig2.public_key.ed25519_pk.clear();
    assert_eq!(kp.verify(&sig2, b"hello"), Ok(false));
    kp.private_key.ed25519_sk = vec![1, 2, 3];
    assert_eq!(kp.sign_ed25519(b"hello").unwrap_err(), CryptoError::InvalidEd25519SecretKey);
}

#[test]
fn dilithium_signing_errors() {
    let mut kp = KeyPair::generate().unwrap();
    let good = kp.sign(b"abc").unwrap();
    // signing is deterministic
    assert_eq!(kp.sign(b"abc").unwrap().signature, good.signature);
    kp.private_key.dilithium_sk.pop();
    assert_eq!(kp.sign(b"abc").unwrap_err(), CryptoError::InvalidDilithiumSecretKey);
    assert_eq!(
        CryptoError::InvalidDilithiumSecretKey.message(),
        "Invalid Dilithium secret key".to_string()
    );
}

#[test]
fn verify_dispatches_on_algorithm() {
    let kp = KeyPair::generate().unwrap();
    let mut sig = kp.sign(b"abc").unwrap();
    assert_eq!(kp.verify(&sig, b"abc"), Ok(true));
    assert_eq!(kp.verify(&sig, b"abd"), Ok(false));
    sig.signature[0] ^= 1;
    assert_eq!(kp.verify(&sig, b"abc"), Ok(false));

    let mut bad_key = kp.sign(b"abc").unwrap();
    bad_key.public_key.dilithium_pk.push(0);
    assert_eq!(kp.verify(&bad_key, b"abc"), Err(CryptoError::InvalidDilithiumPublicKey));

    let mut five = kp.sign(b"abc").unwrap();
    five.algorithm = SignatureAlgorithm::Dilithium5;
    assert_eq!(kp.verify(&five, b"abc"), Err(CryptoError::InvalidDilithium5PublicKey));
    five.public_key.dilithium_pk = vec![0u8; 2592];
    assert_eq!(kp.verify(&five, b"abc"), Ok(false));

    let mut ring = Signature::default();
    ring.algorithm = SignatureAlgorithm::RingSignature;
    assert_eq!(kp.verify(&ring, b"anything"), Ok(true));
}

#[test]
fn encapsulation_round_trip() {
    let kp = KeyPair::generate().unwrap();
    let enc = kp.encapsulate().unwrap();
    assert_eq!(enc.ciphertext.len(), 768);
    assert_eq!(enc.kdf_info, KEM_KDF_INFO.to_vec());
    assert_eq!(enc.kdf_info, b"ZHTP-KEM-v1.0".to_vec());
    assert_eq!(kp.decapsulate(&enc), Ok(enc.shared_secret));

    // the derived key depends on the info string
    let mut other_info = enc.clone();
    other_info.kdf_info = b"other".to_vec();
    let other = kp.decapsulate(&other_info).unwrap();
    assert_ne!(other, enc.shared_secret);
}

#[test]
fn encapsulation_errors() {
    let mut kp = KeyPair::generate().unwrap();
    let enc = kp.encapsulate().unwrap();
    let short_ct = Encapsulation {
        ciphertext: enc.ciphertext[..767].to_vec(),
        shared_secret: [0u8; 32],
        kdf_info: enc.kdf_info.clone(),
    };
    assert_eq!(kp.decapsulate(&short_ct), Err(CryptoError::InvalidKyberCiphertext));
    kp.private_key.kyber_sk.truncate(10);
    assert_eq!(kp.decapsulate(&enc), Err(CryptoError::InvalidKyberSecretKey));
    kp.public_key.kyber_pk.clear();
    assert_eq!(kp.encapsulate().unwrap_err(), CryptoError::InvalidKyberPublicKey);
}

#[test]
fn encrypt_decrypt_round_trip_and_layout() {
    let kp = KeyPair::generate().unwrap();
    let ct = kp.encrypt(b"plain", b"ad").unwrap();
    assert_eq!(ct.len(), 768 + 12 + 5 + 2 + 16);
    assert_eq!(kp.decrypt(&ct, b"ad"), Ok(b"plain".to_vec()));
    let empty = kp.encrypt(b"", b"").unwrap();
    assert_eq!(kp.decrypt(&empty, b""), Ok(Vec::new()));
}

#[test]
fn decrypt_errors() {
    let kp = KeyPair::generate().unwrap();
    let ct = kp.encrypt(b"plain", b"ad").unwrap();
    assert_eq!(kp.decrypt(&ct[..779], b"ad"), Err(CryptoError::CiphertextTooShort));
    assert_eq!(kp.decrypt(&ct, b"xy"), Err(CryptoError::AssociatedDataMismatch));
    // the associated data is only checked as a suffix of the decrypted data
    assert_eq!(kp.decrypt(&ct, b"d"), Ok(b"plaina".to_vec()));
    assert_eq!(kp.decrypt(&ct, b"longer than all of it"), Err(CryptoError::DecryptedDataTooShort));
    let mut tampered = ct.clone();
    let last = tampered.len() - 1;
    tampered[last] ^= 0x01;
    assert_eq!(kp.decrypt(&tampered, b"ad"), Err(CryptoError::DecryptionFailed));

    let other = KeyPair::generate().unwrap();
    assert_eq!(other.decrypt(&ct, b"ad"), Err(CryptoError::DecryptionFailed));

    let mut broken = kp.clone();
    broken.private_key.kyber_sk.clear();
    assert_eq!(broken.decrypt(&ct, b"ad"), Err(CryptoError::InvalidKyberSecretKey));

    let mut no_kem = kp.clone();
    no_kem.public_key.kyber_pk.pop();
    assert_eq!(no_kem.encrypt(b"p", b"a"), Err(CryptoError::InvalidKyberPublicKey));
}

#[test]
fn keypair_zk_entry_points_fail_helpfully() {
    let kp = KeyPair::generate().unwrap();
    let range = kp.prove_range(5, 0, 10).unwrap_err();
    assert_eq!(range, CryptoError::ZkProofUnavailable(ZkCircuit::Range));
    assert!(range.message().contains("zhtp_zk::range::BulletproofRangeProof"));
    let storage = kp.prove_storage_access(1, 2, 3).unwrap_err();
    assert_eq!(storage, CryptoError::ZkProofUnavailable(ZkCircuit::StorageAccess));
    assert!(storage.message().contains("zhtp-zk"));
    let identity = kp.prove_identity(1, 2, 3, 4, 5).unwrap_err();
    assert_eq!(identity, CryptoError::ZkProofUnavailable(ZkCircuit::Identity));
}
