use lib_crypto::advanced::ring_signature::{verify_ring_signature, RingContext};
use lib_crypto::{curve25519_scalar_mult, CryptoError, KeyPair};

#[test]
fn set_signer_out_of_bounds_leaves_context_unchanged() {
    let kp = KeyPair::generate().unwrap();
    let mut ctx = RingContext::new(vec![kp.public_key.clone()], b"m".to_vec());
    assert_eq!(ctx.set_signer(1, kp.private_key.clone()), Err(CryptoError::SignerIndexOutOfBounds));
    assert!(ctx.signer_index.is_none());
    assert!(ctx.private_key.is_none());
    assert_eq!(ctx.set_signer(0, kp.private_key.clone()), Ok(()));
    assert_eq!(ctx.signer_index, Some(0));
}

#[test]
fn signing_needs_a_signer_and_a_key() {
    let kp = KeyPair::generate().unwrap();
    let mut ctx = RingContext::new(vec![kp.public_key.clone()], b"m".to_vec());
    assert_eq!(ctx.sign().unwrap_err(), CryptoError::NoSignerSet);
    ctx.signer_index = Some(0);
    assert_eq!(ctx.sign().unwrap_err(), CryptoError::NoPrivateKeySet);
    let mut sk = kp.private_key.clone();
    sk.ed25519_sk = vec![1, 2, 3];
    ctx.private_key = Some(sk);
    assert_eq!(ctx.sign().unwrap_err(), CryptoError::InvalidCurve25519Scalar);
}

#[test]
fn ring_signature_structure() {
    let a = KeyPair::generate().unwrap();
    let b = KeyPair::generate().unwrap();
    let ring = vec![a.public_key.clone(), b.public_key.clone()];
    let mut ctx = RingContext::new(ring.clone(), b"msg".to_vec());
    ctx.set_signer(1, b.private_key.clone()).unwrap();
    let sig = ctx.sign().unwrap();
    assert_eq!(sig.responses.len(), 2);
    assert_eq!(sig.key_image, ctx.generate_key_image(&b.private_key).unwrap());
    // signing is deterministic
    let again = ctx.sign().unwrap();
    assert_eq!(again.c, sig.c);
    assert_eq!(again.responses, sig.responses);

    // wrong number of responses
    let mut short = sig.clone();
    short.responses.pop();
    assert_eq!(verify_ring_signature(&short, b"msg", &ring), Ok(false));
    // tampered challenge
    let mut bad_c = sig.clone();
    bad_c.c[0] ^= 1;
    assert_eq!(verify_ring_signature(&bad_c, b"msg", &ring), Ok(false));
    // another ring
    let ring2 = vec![b.public_key.clone(), a.public_key.clone()];
    assert_eq!(verify_ring_signature(&sig, b"msg", &ring2), Ok(false));
}

#[test]
fn all_nonsigner_responses_do_not_verify() {
    let a = KeyPair::generate().unwrap();
    let b = KeyPair::generate().unwrap();
    let ring = vec![a.public_key.clone(), b.public_key.clone()];
    let mut ctx = RingContext::new(ring.clone(), b"msg".to_vec());
    // signer index outside the ring (fields are public): every response is a non-signer one
    ctx.signer_index = Some(5);
    ctx.private_key = Some(a.private_key.clone());
    let sig = ctx.sign().unwrap();
    assert_eq!(verify_ring_signature(&sig, b"msg", &ring), Ok(false));
}

#[test]
fn x25519_known_answer() {
    let scalar: [u8; 32] = [
        0xa5, 0x46, 0xe3, 0x6b, 0xf0, 0x52, 0x7c, 0x9d, 0x3b, 0x16, 0x15, 0x4b, 0x82, 0x46, 0x5e,
        0xdd, 0x62, 0x14, 0x4c, 0x0a, 0xc1, 0xfc, 0x5a, 0x18, 0x50, 0x6a, 0x22, 0x44, 0xba, 0x44,
        0x9a, 0xc4,
    ];
    let point: [u8; 32] = [
        0xe6, 0xdb, 0x68, 0x67, 0x58, 0x30, 0x30, 0xdb, 0x35, 0x94, 0xc1, 0xa4, 0x24, 0xb1, 0x5f,
        0x7c, 0x72, 0x66, 0x24, 0xec, 0x26, 0xb3, 0x35, 0x3b, 0x10, 0xa9, 0x03, 0xa6, 0xd0, 0xab,
        0x1c, 0x4c,
    ];
    let expected: [u8; 32] = [
        0xc3, 0xda, 0x55, 0x37, 0x9d, 0xe9, 0xc6, 0x90, 0x8e, 0x94, 0xea, 0x4d, 0xf2, 0x8d, 0x08,
        0x4f, 0x32, 0xec, 0xcf, 0x03, 0x49, 0x1c, 0x71, 0xf7, 0x54, 0xb4, 0x07, 0x55, 0x77, 0xa2,
        0x85, 0x52,
    ];
    assert_eq!(curve25519_scalar_mult(&scalar, &point), Ok(expected));
    assert_eq!(curve25519_scalar_mult(&scalar[..31], &point), Err(CryptoError::InvalidCurve25519Scalar));
}
