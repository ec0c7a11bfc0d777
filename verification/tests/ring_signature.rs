use lib_crypto::advanced::ring_signature::{verify_ring_signature, RingContext};
use lib_crypto::{CryptoError, KeyPair};

#[test]
fn test_ring_signature_creation() -> Result<(), CryptoError> {
    // Create a ring of 3 participants
    let keypair1 = KeyPair::generate()?;
    let keypair2 = KeyPair::generate()?;
    let keypair3 = KeyPair::generate()?;

    let ring = vec![
        keypair1.public_key.clone(),
        keypair2.public_key.clone(),
        keypair3.public_key.clone(),
    ];

    let message = b"ZHTP ring signature test message";

    // Create ring context and sign with keypair2 (index 1)
    let mut context = RingContext::new(ring.clone(), message.to_vec());
    context.set_signer(1, keypair2.private_key.clone())?;

    let signature = context.sign()?;

    // Verify the signature
    let is_valid = verify_ring_signature(&signature, message, &ring)?;
    assert!(is_valid, "Ring signature should be valid");

    Ok(())
}

#[test]
fn test_ring_signature_verification_failure() -> Result<(), CryptoError> {
    let keypair1 = KeyPair::generate()?;
    let keypair2 = KeyPair::generate()?;

    let ring = vec![keypair1.public_key.clone(), keypair2.public_key.clone()];

    let message = b"ZHTP test message";
    let wrong_message = b"Wrong message";

    let mut context = RingContext::new(ring.clone(), message.to_vec());
    context.set_signer(0, keypair1.private_key.clone())?;

    let signature = context.sign()?;

    // Verify with wrong message should fail
    let is_valid = verify_ring_signature(&signature, wrong_message, &ring)?;
    assert!(!is_valid, "Ring signature should be invalid with wrong message");

    Ok(())
}

#[test]
fn test_key_image_generation() -> Result<(), CryptoError> {
    let keypair = KeyPair::generate()?;
    let ring = vec![keypair.public_key.clone()];
    let message = b"test";

    let context = RingContext::new(ring, message.to_vec());
    let key_image = context.generate_key_image(&keypair.private_key)?;

    // Key image should be deterministic for the same private key
    let key_image2 = context.generate_key_image(&keypair.private_key)?;
    assert_eq!(key_image, key_image2);

    Ok(())
}
