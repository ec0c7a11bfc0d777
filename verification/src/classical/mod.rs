//! Classical elliptic-curve primitives: Curve25519 scalar multiplication and
//! Ed25519 signatures, from the `curve25519-dalek` and `ed25519-dalek` crates.

use vstd::prelude::*;
use curve25519_dalek::montgomery::MontgomeryPoint;
use ed25519_dalek::{Signer, Verifier};
use crate::error::CryptoError;

verus! {

/// The Montgomery u-coordinate that `MontgomeryPoint::mul_clamped` yields
/// for a 32-byte scalar (clamped first) and a point: X25519.
pub uninterp spec fn x25519_product(scalar: Seq<u8>, point: Seq<u8>) -> Seq<u8>;

/// The 64-byte Ed25519 signature of `msg` under the 32-byte secret key `sk`
/// (Ed25519 signing is deterministic).
pub uninterp spec fn ed25519_signature(sk: Seq<u8>, msg: Seq<u8>) -> Seq<u8>;

/// The 32-byte Ed25519 public key of the 32-byte secret key `sk`.
pub uninterp spec fn ed25519_public_key(sk: Seq<u8>) -> Seq<u8>;

/// Whether `pk` decodes to an Ed25519 point and `sig` is a valid signature
/// of `msg` under it.
pub uninterp spec fn ed25519_accepts(pk: Seq<u8>, sig: Seq<u8>, msg: Seq<u8>) -> bool;

/// Trusted: copies the 32-byte scalar into an array and calls
/// `curve25519_dalek::montgomery::MontgomeryPoint::mul_clamped`, returning
/// the bytes of the product; the result is a fixed function of the inputs.
#[verifier::external_body]
fn montgomery_mul_clamped(scalar: &[u8], point: &[u8; 32]) -> (product: [u8; 32])
    requires
        scalar@.len() == 32,
    ensures
        product@ == x25519_product(scalar@, point@),
{
    let mut k = [0u8; 32];
    k.copy_from_slice(scalar);
    MontgomeryPoint(*point).mul_clamped(k).to_bytes()
}

/// Curve25519 scalar multiplication (X25519) of `point` by a 32-byte scalar.
pub fn curve25519_scalar_mult(scalar: &[u8], point: &[u8; 32]) -> (res: Result<[u8; 32], CryptoError>)
    ensures
        scalar@.len() != 32 ==> res == Err::<[u8; 32], CryptoError>(
            CryptoError::InvalidCurve25519Scalar,
        ),
        scalar@.len() == 32 ==> (res matches Ok(p) && p@ == x25519_product(scalar@, point@)),
{
    if scalar.len() != 32 {
        return Err(CryptoError::InvalidCurve25519Scalar);
    }
    Ok(montgomery_mul_clamped(scalar, point))
}

/// Trusted: builds `ed25519_dalek::SigningKey::from_bytes` from the 32-byte
/// secret and signs `msg` with `Signer::sign`, returning the signature bytes.
/// Ed25519 is correct: the signature verifies under the public key of the
/// same secret key.
#[verifier::external_body]
pub(crate) fn ed25519_sign_bytes(sk: &[u8], msg: &[u8]) -> (sig: [u8; 64])
    requires
        sk@.len() == 32,
    ensures
        sig@ == ed25519_signature(sk@, msg@),
        ed25519_accepts(ed25519_public_key(sk@), sig@, msg@),
{
    let mut k = [0u8; 32];
    k.copy_from_slice(sk);
    ed25519_dalek::SigningKey::from_bytes(&k).sign(msg).to_bytes()
}

/// Trusted: builds `ed25519_dalek::SigningKey::from_bytes` from the 32-byte
/// secret and returns the bytes of its `verifying_key`.
#[verifier::external_body]
pub(crate) fn ed25519_public_from_secret(sk: &[u8; 32]) -> (pk: [u8; 32])
    ensures
        pk@ == ed25519_public_key(sk@),
{
    ed25519_dalek::SigningKey::from_bytes(sk).verifying_key().to_bytes()
}

/// Trusted: parses the signature with `ed25519_dalek::Signature::try_from`
/// and the key with `ed25519_dalek::VerifyingKey::from_bytes` (a parse
/// failure gives `false`), then calls `Verifier::verify`.
#[verifier::external_body]
pub(crate) fn ed25519_verify_bytes(pk: &[u8], sig: &[u8], msg: &[u8]) -> (ok: bool)
    requires
        pk@.len() == 32,
        sig@.len() == 64,
    ensures
        ok == ed25519_accepts(pk@, sig@, msg@),
{
    let sig = match ed25519_dalek::Signature::try_from(sig) {
        Ok(s) => s,
        Err(_) => return false,
    };
    let mut k = [0u8; 32];
    k.copy_from_slice(pk);
    match ed25519_dalek::VerifyingKey::from_bytes(&k) {
        Ok(key) => key.verify(msg, &sig).is_ok(),
        Err(_) => false,
    }
}

} // verus!
