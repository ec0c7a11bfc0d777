//! CRYSTALS-Dilithium signatures and CRYSTALS-Kyber key encapsulation.
//!
//! The schemes themselves come from the `pqcrypto-dilithium` and
//! `pqcrypto-kyber` crates; this module holds their sizes and the trusted
//! wrappers through which the rest of the library calls them.

use vstd::prelude::*;
use pqcrypto_dilithium::{dilithium2, dilithium5};
use pqcrypto_kyber::kyber512;
use pqcrypto_traits::sign::PublicKey as _;
use pqcrypto_traits::sign::SecretKey as _;
use pqcrypto_traits::sign::SignedMessage as _;
use pqcrypto_traits::kem::PublicKey as _;
use pqcrypto_traits::kem::SecretKey as _;
use pqcrypto_traits::kem::Ciphertext as _;
use pqcrypto_traits::kem::SharedSecret as _;

verus! {

/// Size of a Dilithium2 public key in bytes.
pub const DILITHIUM2_PUBLICKEY_BYTES: usize = 1312;
/// Size of a Dilithium2 secret key in bytes.
pub const DILITHIUM2_SECRETKEY_BYTES: usize = 2560;
/// Size of the signature part of a Dilithium2 signed message.
pub const DILITHIUM2_SIGNATURE_BYTES: usize = 2420;
/// Size of a Dilithium5 public key in bytes.
pub const DILITHIUM5_PUBLICKEY_BYTES: usize = 2592;
/// Size of the signature part of a Dilithium5 signed message.
pub const DILITHIUM5_SIGNATURE_BYTES: usize = 4627;
/// Size of a Kyber512 public key in bytes.
pub const KYBER512_PUBLICKEY_BYTES: usize = 800;
/// Size of a Kyber512 secret key in bytes.
pub const KYBER512_SECRETKEY_BYTES: usize = 1632;
/// Size of a Kyber512 ciphertext in bytes.
pub const KYBER512_CIPHERTEXT_BYTES: usize = 768;
/// Size of a Kyber512 shared secret in bytes.
pub const KYBER512_SHARED_SECRET_BYTES: usize = 32;

/// The view of an optional byte vector.
pub open spec fn opt_bytes(o: Option<Vec<u8>>) -> Option<Seq<u8>> {
    match o {
        Some(v) => Some(v@),
        None => None,
    }
}

/// The signed message (signature followed by the message) that Dilithium2
/// produces for a secret key and a message; signing is deterministic.
pub uninterp spec fn dilithium2_signed_message(sk: Seq<u8>, msg: Seq<u8>) -> Seq<u8>;

/// What Dilithium2 `open` yields for a signed message under a public key:
/// the message when the signature verifies, `None` otherwise.
pub uninterp spec fn dilithium2_opened(sm: Seq<u8>, pk: Seq<u8>) -> Option<Seq<u8>>;

/// What Dilithium5 `open` yields for a signed message under a public key.
pub uninterp spec fn dilithium5_opened(sm: Seq<u8>, pk: Seq<u8>) -> Option<Seq<u8>>;

/// The Kyber512 shared secret that decapsulating `ct` with `sk` yields.
pub uninterp spec fn kyber512_shared_secret(ct: Seq<u8>, sk: Seq<u8>) -> Seq<u8>;

/// The Kyber512 public key `pk` and secret key `sk` were generated together
/// as one key pair.
pub uninterp spec fn kyber512_key_pair(pk: Seq<u8>, sk: Seq<u8>) -> bool;

/// The Kyber512 ciphertext `ct` was made by encapsulating the shared secret
/// `ss` to the public key `pk`.
pub uninterp spec fn kyber512_encapsulates(pk: Seq<u8>, ct: Seq<u8>, ss: Seq<u8>) -> bool;

/// Trusted: calls `pqcrypto_dilithium::dilithium2::keypair` and returns the
/// bytes of the public and the secret key. The keys are random; the contract
/// states their sizes (the `PublicKey`/`SecretKey` types are fixed-size
/// arrays of those lengths) and that they form a pair: Dilithium signing
/// retries until it has a signature that verifies, so every message signed
/// with the secret key opens to itself under the public key (the crate's
/// documented example asserts exactly this).
#[verifier::external_body]
pub(crate) fn dilithium2_keypair() -> (keys: (Vec<u8>, Vec<u8>))
    ensures
        keys.0@.len() == DILITHIUM2_PUBLICKEY_BYTES,
        keys.1@.len() == DILITHIUM2_SECRETKEY_BYTES,
        forall|m: Seq<u8>|
            #![trigger dilithium2_signed_message(keys.1@, m)]
            dilithium2_opened(dilithium2_signed_message(keys.1@, m), keys.0@) == Some(m),
{
    let (pk, sk) = dilithium2::keypair();
    (pk.as_bytes().to_vec(), sk.as_bytes().to_vec())
}

/// Trusted: parses `sk` with `dilithium2::SecretKey::from_bytes` (which
/// rejects any length but the secret-key size) and signs `msg` with
/// `dilithium2::sign`. PQClean's Dilithium2 signing is deterministic (its
/// randomness input is fixed to zero), and its signed message is the
/// 2420-byte signature followed by the message itself.
#[verifier::external_body]
pub(crate) fn dilithium2_sign(sk: &[u8], msg: &[u8]) -> (signed: Option<Vec<u8>>)
    ensures
        signed is None <==> sk@.len() != DILITHIUM2_SECRETKEY_BYTES,
        signed matches Some(sm) ==> {
            &&& sm@ == dilithium2_signed_message(sk@, msg@)
            &&& sm@.len() == DILITHIUM2_SIGNATURE_BYTES + msg@.len()
            &&& sm@.subrange(DILITHIUM2_SIGNATURE_BYTES as int, sm@.len() as int) == msg@
        },
{
    match dilithium2::SecretKey::from_bytes(sk) {
        Ok(key) => Some(dilithium2::sign(msg, &key).as_bytes().to_vec()),
        Err(_) => None,
    }
}

/// Trusted: parses `pk` with `dilithium2::PublicKey::from_bytes` (which
/// rejects any length but the public-key size), wraps `sm` with
/// `dilithium2::SignedMessage::from_bytes` (which accepts every byte string)
/// and calls `dilithium2::open`. The outer `None` means the key was
/// rejected; otherwise the inner value is the opened message, or `None` when
/// verification failed. PQClean's `crypto_sign_open` only succeeds on a
/// signed message of at least the signature size, and the message it gives
/// back is the part of the signed message after the signature.
#[verifier::external_body]
pub(crate) fn dilithium2_open(sm: &[u8], pk: &[u8]) -> (opened: Option<Option<Vec<u8>>>)
    ensures
        opened is None <==> pk@.len() != DILITHIUM2_PUBLICKEY_BYTES,
        opened matches Some(o) ==> opt_bytes(o) == dilithium2_opened(sm@, pk@),
        opened matches Some(Some(m)) ==> {
            &&& sm@.len() >= DILITHIUM2_SIGNATURE_BYTES
            &&& m@ == sm@.subrange(DILITHIUM2_SIGNATURE_BYTES as int, sm@.len() as int)
        },
{
    let key = match dilithium2::PublicKey::from_bytes(pk) {
        Ok(key) => key,
        Err(_) => return None,
    };
    match dilithium2::SignedMessage::from_bytes(sm) {
        Ok(signed) => Some(dilithium2::open(&signed, &key).ok()),
        Err(_) => Some(None),
    }
}

/// Trusted: as [`dilithium2_open`], for Dilithium5 (`dilithium5::PublicKey::from_bytes`,
/// `dilithium5::SignedMessage::from_bytes`, `dilithium5::open`), whose
/// signature part is 4627 bytes.
#[verifier::external_body]
pub(crate) fn dilithium5_open(sm: &[u8], pk: &[u8]) -> (opened: Option<Option<Vec<u8>>>)
    ensures
        opened is None <==> pk@.len() != DILITHIUM5_PUBLICKEY_BYTES,
        opened matches Some(o) ==> opt_bytes(o) == dilithium5_opened(sm@, pk@),
        opened matches Some(Some(m)) ==> {
            &&& sm@.len() >= DILITHIUM5_SIGNATURE_BYTES
            &&& m@ == sm@.subrange(DILITHIUM5_SIGNATURE_BYTES as int, sm@.len() as int)
        },
{
    let key = match dilithium5::PublicKey::from_bytes(pk) {
        Ok(key) => key,
        Err(_) => return None,
    };
    match dilithium5::SignedMessage::from_bytes(sm) {
        Ok(signed) => Some(dilithium5::open(&signed, &key).ok()),
        Err(_) => Some(None),
    }
}

/// Trusted: calls `pqcrypto_kyber::kyber512::keypair` and returns the bytes
/// of the public and the secret key. The keys are random; the contract
/// states their sizes and that they belong to one generated pair. That the
/// secret key recovers what is
/// encapsulated to the public key is left unsaid: Kyber512 decapsulation
/// fails for a small fraction of ciphertexts, and then yields a rejection
/// key instead of the encapsulated secret.
#[verifier::external_body]
pub(crate) fn kyber512_keypair() -> (keys: (Vec<u8>, Vec<u8>))
    ensures
        keys.0@.len() == KYBER512_PUBLICKEY_BYTES,
        keys.1@.len() == KYBER512_SECRETKEY_BYTES,
        kyber512_key_pair(keys.0@, keys.1@),
{
    let (pk, sk) = kyber512::keypair();
    (pk.as_bytes().to_vec(), sk.as_bytes().to_vec())
}

/// Trusted: parses `pk` with `kyber512::PublicKey::from_bytes` (which rejects
/// any length but the public-key size) and calls `kyber512::encapsulate`,
/// returning the shared secret and the ciphertext. Encapsulation is random:
/// the contract states the sizes of the two results and that the ciphertext
/// encapsulates the secret to `pk`; which secret is chosen is left unsaid.
#[verifier::external_body]
pub(crate) fn kyber512_encapsulate(pk: &[u8]) -> (encapsulated: Option<(Vec<u8>, Vec<u8>)>)
    ensures
        encapsulated is None <==> pk@.len() != KYBER512_PUBLICKEY_BYTES,
        encapsulated matches Some(pair) ==> {
            &&& pair.0@.len() == KYBER512_SHARED_SECRET_BYTES
            &&& pair.1@.len() == KYBER512_CIPHERTEXT_BYTES
            &&& kyber512_encapsulates(pk@, pair.1@, pair.0@)
        },
{
    match kyber512::PublicKey::from_bytes(pk) {
        Ok(key) => {
            let (ss, ct) = kyber512::encapsulate(&key);
            Some((ss.as_bytes().to_vec(), ct.as_bytes().to_vec()))
        },
        Err(_) => None,
    }
}

/// Trusted: parses `sk` and `ct` with `kyber512::SecretKey::from_bytes` and
/// `kyber512::Ciphertext::from_bytes` (each rejects any length but its size)
/// and calls `kyber512::decapsulate`, which is deterministic.
#[verifier::external_body]
pub(crate) fn kyber512_decapsulate(ct: &[u8], sk: &[u8]) -> (shared: Option<Vec<u8>>)
    ensures
        shared is None <==> (sk@.len() != KYBER512_SECRETKEY_BYTES || ct@.len()
            != KYBER512_CIPHERTEXT_BYTES),
        shared matches Some(ss) ==> {
            &&& ss@ == kyber512_shared_secret(ct@, sk@)
            &&& ss@.len() == KYBER512_SHARED_SECRET_BYTES
        },
{
    let key = match kyber512::SecretKey::from_bytes(sk) {
        Ok(key) => key,
        Err(_) => return None,
    };
    match kyber512::Ciphertext::from_bytes(ct) {
        Ok(c) => Some(kyber512::decapsulate(&c, &key).as_bytes().to_vec()),
        Err(_) => None,
    }
}

} // verus!
