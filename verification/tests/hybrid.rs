use lib_crypto::symmetric::hybrid::{hybrid_decrypt, hybrid_encrypt};
use lib_crypto::{CryptoError, KeyPair};

#[test]
fn test_hybrid_encryption_workflow() -> Result<(), CryptoError> {
    let keypair = KeyPair::generate()?;
    let plaintext = b"ZHTP hybrid encryption test data";

    // Test current hybrid encrypt function
    let encrypted = hybrid_encrypt(plaintext, &keypair.public_key)?;
    assert!(encrypted.len() > plaintext.len());

    // hybrid_decrypt returns an error until a proper KEM is in place
    let result = hybrid_decrypt(&encrypted, &keypair);
    assert!(result.is_err());

    Ok(())
}

#[test]
fn test_keypair_encrypt_decrypt() -> Result<(), CryptoError> {
    let keypair = KeyPair::generate()?;
    let plaintext = b"ZHTP KeyPair encryption test";
    let associated_data = b"ZHTP-v1.0";

    // Use the keypair's real encrypt/decrypt methods
    let ciphertext = keypair.encrypt(plaintext, associated_data)?;
    let decrypted = keypair.decrypt(&ciphertext, associated_data)?;

    assert_eq!(plaintext.as_slice(), decrypted);

    Ok(())
}
