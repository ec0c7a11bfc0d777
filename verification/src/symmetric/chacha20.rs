//! ChaCha20-Poly1305 authenticated encryption (empty associated data).

use vstd::prelude::*;
use chacha20poly1305::aead::{Aead, KeyInit, Payload};
use chacha20poly1305::{ChaCha20Poly1305, Key, Nonce};
use crate::bytes::{append_bytes, copy_range};
use crate::error::CryptoError;
use crate::post_quantum::opt_bytes;
use crate::random::generate_nonce;

verus! {

/// The ChaCha20-Poly1305 ciphertext (encrypted message followed by the
/// 16-byte tag) of `msg` under `key` and `nonce`, with empty associated data.
pub uninterp spec fn chacha20poly1305_sealed(key: Seq<u8>, nonce: Seq<u8>, msg: Seq<u8>) -> Seq<u8>;

/// What ChaCha20-Poly1305 decryption of `ct` under `key` and `nonce` (empty
/// associated data) yields: the message when the tag checks, `None` otherwise.
pub uninterp spec fn chacha20poly1305_opened(key: Seq<u8>, nonce: Seq<u8>, ct: Seq<u8>) -> Option<
    Seq<u8>,
>;

/// Messages whose length in 64-byte blocks reaches this bound are refused,
/// since the ChaCha20 block counter would overflow.
pub const CHACHA20_MAX_BLOCKS: usize = 0xffff_ffff;

/// Whether ChaCha20-Poly1305 accepts a message of this length.
pub open spec fn sealable(len: nat) -> bool {
    len / 64 < CHACHA20_MAX_BLOCKS
}

/// `ct` is the sealing of `msg` under `key` and the 12-byte `nonce`, and
/// opening it gives `msg` back.
pub open spec fn sealed_under(key: Seq<u8>, nonce: Seq<u8>, msg: Seq<u8>, ct: Seq<u8>) -> bool {
    &&& nonce.len() == 12
    &&& ct == chacha20poly1305_sealed(key, nonce, msg)
    &&& ct.len() == msg.len() + 16
    &&& chacha20poly1305_opened(key, nonce, ct) == Some(msg)
}

/// Trusted: `ChaCha20Poly1305::new(key).encrypt(nonce, Payload { msg, aad: [] })`.
/// The `chacha20poly1305` crate refuses a message of `u32::MAX` or more
/// 64-byte blocks and otherwise returns the ciphertext with a 16-byte tag
/// appended; decrypting that ciphertext with the same key and nonce gives
/// the message back.
#[verifier::external_body]
pub(crate) fn chacha20poly1305_seal(key: &[u8; 32], nonce: &[u8; 12], msg: &[u8]) -> (sealed: Option<Vec<u8>>)
    ensures
        sealed is Some <==> sealable(msg@.len()),
        sealed matches Some(ct) ==> ct@ == chacha20poly1305_sealed(key@, nonce@, msg@),
        sealed matches Some(ct) ==> sealed_under(key@, nonce@, msg@, ct@),
{
    let cipher = ChaCha20Poly1305::new(Key::from_slice(key));
    cipher.encrypt(Nonce::from_slice(nonce), Payload { msg, aad: &[] }).ok()
}

/// Trusted: `ChaCha20Poly1305::new(key).decrypt(nonce, ct)` with empty
/// associated data. A successful decryption strips the 16-byte tag.
#[verifier::external_body]
pub(crate) fn chacha20poly1305_open(key: &[u8; 32], nonce: &[u8], ct: &[u8]) -> (opened: Option<Vec<u8>>)
    requires
        nonce@.len() == 12,
    ensures
        opt_bytes(opened) == chacha20poly1305_opened(key@, nonce@, ct@),
        opened matches Some(m) ==> m@.len() + 16 == ct@.len(),
{
    let cipher = ChaCha20Poly1305::new(Key::from_slice(key));
    cipher.decrypt(Nonce::from_slice(nonce), ct).ok()
}

/// `out` is a 12-byte nonce followed by the sealing of `data` under `key`
/// with that nonce.
pub open spec fn encrypted_data_under(key: Seq<u8>, data: Seq<u8>, out: Seq<u8>) -> bool {
    &&& out.len() >= 12
    &&& sealed_under(key, out.subrange(0, 12), data, out.subrange(12, out.len() as int))
}

/// The view of a byte-vector result.
pub open spec fn result_bytes(r: Result<Vec<u8>, CryptoError>) -> Result<Seq<u8>, CryptoError> {
    match r {
        Ok(v) => Ok(v@),
        Err(e) => Err(e),
    }
}

/// What `decrypt_data` yields for `ct` under `key`.
pub open spec fn data_decryption(key: Seq<u8>, ct: Seq<u8>) -> Result<Seq<u8>, CryptoError> {
    if ct.len() < 12 {
        Err(CryptoError::CiphertextTooShort)
    } else {
        match chacha20poly1305_opened(key, ct.subrange(0, 12), ct.subrange(12, ct.len() as int)) {
            Some(m) => Ok(m),
            None => Err(CryptoError::DecryptionFailed),
        }
    }
}

/// Encrypt `data` under a 32-byte key with a given 12-byte nonce; the
/// output is the nonce followed by the ChaCha20-Poly1305 ciphertext.
pub fn encrypt_data_with_nonce(data: &[u8], key: &[u8; 32], nonce: &[u8; 12]) -> (res: Result<
    Vec<u8>,
    CryptoError,
>)
    ensures
        res is Ok <==> sealable(data@.len()),
        res is Err ==> res == Err::<Vec<u8>, CryptoError>(CryptoError::EncryptionFailed),
        res matches Ok(out) ==> out@ == nonce@ + chacha20poly1305_sealed(key@, nonce@, data@),
        res matches Ok(out) ==> encrypted_data_under(key@, data@, out@),
{
    match chacha20poly1305_seal(key, nonce, data) {
        Some(ct) => {
            let mut out: Vec<u8> = Vec::new();
            append_bytes(&mut out, nonce);
            append_bytes(&mut out, ct.as_slice());
            assert(out@.subrange(0, 12) =~= nonce@);
            assert(out@.subrange(12, out@.len() as int) =~= ct@);
            Ok(out)
        },
        None => Err(CryptoError::EncryptionFailed),
    }
}

/// Encrypt `data` under a 32-byte key with a fresh random nonce (see
/// [`encrypt_data_with_nonce`]).
pub fn encrypt_data(data: &[u8], key: &[u8; 32]) -> (res: Result<Vec<u8>, CryptoError>)
    ensures
        res is Ok <==> sealable(data@.len()),
        res is Err ==> res == Err::<Vec<u8>, CryptoError>(CryptoError::EncryptionFailed),
        res matches Ok(out) ==> encrypted_data_under(key@, data@, out@),
{
    let nonce = generate_nonce();
    encrypt_data_with_nonce(data, key, &nonce)
}

/// Decrypt the output of [`encrypt_data`]: a 12-byte nonce followed by the
/// ChaCha20-Poly1305 ciphertext.
pub fn decrypt_data(ciphertext: &[u8], key: &[u8; 32]) -> (res: Result<Vec<u8>, CryptoError>)
    ensures
        result_bytes(res) == data_decryption(key@, ciphertext@),
{
    if ciphertext.len() < 12 {
        return Err(CryptoError::CiphertextTooShort);
    }
    let nonce = copy_range(ciphertext, 0, 12);
    let body = copy_range(ciphertext, 12, ciphertext.len());
    match chacha20poly1305_open(key, nonce.as_slice(), body.as_slice()) {
        Some(m) => Ok(m),
        None => Err(CryptoError::DecryptionFailed),
    }
}

/// Decrypting what [`encrypt_data`] produced, with the same key, gives the
/// data back.
pub proof fn lemma_decrypt_data_inverts_encrypt_data(key: Seq<u8>, data: Seq<u8>, out: Seq<u8>)
    requires
        encrypted_data_under(key, data, out),
    ensures
        data_decryption(key, out) == Ok::<Seq<u8>, CryptoError>(data),
{
}

} // verus!
