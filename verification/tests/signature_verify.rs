use lib_crypto::hashing::hash_blake3;
use lib_crypto::types::{PrivateKey, PublicKey, Signature, SignatureAlgorithm};
use lib_crypto::verification::verify_signature;
use lib_crypto::{CryptoError, KeyPair};

fn random_like(len: usize, seed: u8) -> Vec<u8> {
    // deterministic, non-ASCII-heavy filler without development markers
    (0..len).map(|i| ((i as u32 * 131 + seed as u32 * 7 + 200) % 256) as u8 | 0x80).collect()
}

#[test]
fn short_development_signatures_are_accepted() {
    let pk = random_like(1312, 1);
    assert_eq!(verify_signature(b"msg", b"1234abcdefghijklmnop", &pk), Ok(true));
    assert_eq!(verify_signature(b"msg", b"xxxxxxxxxxxxxxxxtestxx", &pk), Ok(true));
    assert_eq!(verify_signature(b"msg", b"xxxxxxxxxxxxxxxxdevxxx", &pk), Ok(true));
    assert_eq!(verify_signature(b"msg", b"xxxxxxxxxxxxxxxxmockxx", &pk), Ok(true));
    assert_eq!(verify_signature(b"msg", &[0xffu8; 15], &pk), Ok(true));
    assert_eq!(verify_signature(b"msg", &[], &pk), Ok(true));
}

#[test]
fn short_signature_without_marker_is_checked_with_dilithium() {
    let pk = random_like(1312, 2);
    // 20 bytes without a marker: falls through to Dilithium2, which rejects it
    assert_eq!(verify_signature(b"msg", &[0xeeu8; 20], &pk), Ok(false));
    // a marker beyond the first 64 bytes does not count
    let mut long = vec![0xeeu8; 70];
    long[66..70].copy_from_slice(b"mock");
    assert_eq!(verify_signature(b"msg", &long, &pk), Ok(false));
}

#[test]
fn hex_development_signatures_are_accepted() {
    let pk = random_like(1312, 3);
    let hex = vec![b'a'; 1000];
    assert_eq!(verify_signature(b"msg", &hex, &pk), Ok(true));
    // hex but shorter than 1000 bytes is not a development signature
    let short_hex = vec![b'F'; 999];
    assert_eq!(verify_signature(b"msg", &short_hex, &pk), Ok(false));
    // 5000 bytes or more is not one either
    let long_hex = vec![b'0'; 5000];
    assert_eq!(verify_signature(b"msg", &long_hex, &pk), Ok(false));
    // one non-hex byte breaks it
    let mut mixed = vec![b'9'; 1200];
    mixed[600] = b'g';
    assert_eq!(verify_signature(b"msg", &mixed, &pk), Ok(false));
}

#[test]
fn development_keys_are_accepted() {
    let sig = random_like(3000, 4);
    assert_eq!(verify_signature(b"m", &sig, b"abcdef0123"), Ok(true));
    assert_eq!(verify_signature(b"m", &sig, b"dilithium-key"), Ok(true));
    assert_eq!(verify_signature(b"m", &sig, b"user_pub_key"), Ok(true));
    assert_eq!(verify_signature(b"m", &sig, b"user_priv_key"), Ok(true));
    assert_eq!(verify_signature(b"m", &sig, b"xabcdef"), Ok(false));
}

#[test]
fn other_sizes_are_rejected_or_bound() {
    // neither a Dilithium2 key nor large enough for the binding check
    let sig = random_like(3000, 5);
    assert_eq!(verify_signature(b"m", &sig, &random_like(999, 6)), Ok(false));
    assert_eq!(verify_signature(b"m", &random_like(1999, 7), &random_like(2000, 6)), Ok(false));
    // large key and signature without the binding digest
    assert_eq!(verify_signature(b"m", &sig, &random_like(2592, 8)), Ok(false));
}

#[test]
fn real_dilithium_signatures_verify() -> Result<(), CryptoError> {
    let keypair = KeyPair::generate()?;
    let message = b"an ordinary message";
    let signature = keypair.sign(message)?;
    assert_eq!(signature.signature.len(), 2420 + message.len());
    assert_eq!(&signature.signature[2420..], message);
    assert_eq!(signature.algorithm, SignatureAlgorithm::Dilithium2);
    assert_eq!(signature.public_key, keypair.public_key);
    assert_eq!(verify_signature(message, &signature.signature, &keypair.public_key.dilithium_pk), Ok(true));
    assert_eq!(verify_signature(b"another message", &signature.signature, &keypair.public_key.dilithium_pk), Ok(false));
    assert_eq!(keypair.public_key.verify(message, &signature), Ok(true));
    assert_eq!(keypair.public_key.verify(b"different", &signature), Ok(false));
    Ok(())
}

#[test]
fn public_key_basics() {
    let pk = PublicKey::new(vec![1, 2, 3]);
    assert_eq!(pk.key_id, hash_blake3(&[1, 2, 3]));
    assert!(pk.kyber_pk.is_empty());
    assert!(pk.ed25519_pk.is_empty());
    assert_eq!(pk.size(), 3 + 0 + 32);
    assert_eq!(pk.as_bytes(), vec![1, 2, 3]);

    let empty = PublicKey::new(vec![]);
    assert_eq!(empty.as_bytes(), empty.key_id.to_vec());
    assert_eq!(empty.size(), 32);
    let sig = Signature::default();
    assert_eq!(empty.verify(b"m", &sig), Err(CryptoError::MissingDilithiumPublicKey));
    assert!(empty.verify(b"m", &sig).unwrap_err().message().contains("No Dilithium public key"));
}

#[test]
fn private_key_size_counts_dilithium_kyber_and_seed() {
    let sk = PrivateKey {
        dilithium_sk: vec![0; 10],
        kyber_sk: vec![0; 20],
        ed25519_sk: vec![0; 32],
        master_seed: vec![0; 5],
    };
    assert_eq!(sk.size(), 35);
}

#[test]
fn default_signature_is_empty() {
    let sig = Signature::default();
    assert!(sig.signature.is_empty());
    assert!(sig.public_key.dilithium_pk.is_empty());
    assert!(sig.public_key.kyber_pk.is_empty());
    assert_eq!(sig.public_key.key_id, [0u8; 32]);
    assert_eq!(sig.algorithm, SignatureAlgorithm::Dilithium2);
    assert_eq!(sig.timestamp, 0);
}

#[test]
fn blake3_known_answer() {
    let empty = hash_blake3(b"");
    assert_eq!(
        empty,
        [
            0xaf, 0x13, 0x49, 0xb9, 0xf5, 0xf9, 0xa1, 0xa6, 0xa0, 0x40, 0x4d, 0xea, 0x36, 0xdc,
            0xc9, 0x49, 0x9b, 0xcb, 0x25, 0xc9, 0xad, 0xc1, 0x12, 0xb7, 0xcc, 0x9a, 0x93, 0xca,
            0xe4, 0x1f, 0x32, 0x62
        ]
    );
}
