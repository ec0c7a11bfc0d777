use lib_crypto::{CryptoError, KeyPair};

#[test]
fn test_real_keypair_generation() -> Result<(), CryptoError> {
    let keypair = KeyPair::generate()?;

    // Verify we have real key sizes (check actual generated key sizes)
    assert!(keypair.public_key.dilithium_pk.len() > 1000);
    assert!(keypair.public_key.kyber_pk.len() > 700);
    assert!(keypair.private_key.dilithium_sk.len() > 2000);
    assert!(keypair.private_key.kyber_sk.len() > 1500);
    assert_eq!(keypair.public_key.key_id.len(), 32);

    Ok(())
}

#[test]
fn test_crypto_integration() -> Result<(), CryptoError> {
    // Test full crypto workflow
    let keypair = KeyPair::generate()?;
    let message = b"ZHTP: Quantum-resistant Web4 internet!";

    // Sign and verify
    let signature = keypair.sign(message)?;
    assert!(keypair.verify(&signature, message)?);

    // Encrypt and decrypt
    let plaintext = b"Secret ZHTP data";
    let associated_data = b"ZHTP-v1.0";
    let ciphertext = keypair.encrypt(plaintext, associated_data)?;
    let decrypted = keypair.decrypt(&ciphertext, associated_data)?;
    assert_eq!(plaintext.as_slice(), decrypted);

    // Test ZK proofs (should provide helpful error message about zhtp-zk dependency)
    let zk_result = keypair.prove_identity(25, 840, 9999, 18, 840);
    assert!(zk_result.is_err());
    assert!(zk_result.unwrap_err().message().contains("zhtp-zk"));

    Ok(())
}
