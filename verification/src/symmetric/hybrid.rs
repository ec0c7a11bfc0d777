//! Hybrid encryption: a KEM-protected key plus ChaCha20-Poly1305.
//!
//! A key-pair ciphertext is laid out as the 768-byte Kyber512 ciphertext,
//! the 12-byte nonce, and the ChaCha20-Poly1305 sealing of the plaintext
//! followed by the associated data.

use vstd::prelude::*;
use crate::bytes::{append_bytes, bytes_eq, copy_bytes, copy_range};
use crate::error::CryptoError;
use crate::hashing::{blake3_digest, hash_blake3};
use crate::kdf::hkdf_sha3_256;
use crate::keypair::KeyPair;
use crate::keypair::operations::KEM_KDF_INFO;
use crate::post_quantum::{kyber512_shared_secret, KYBER512_CIPHERTEXT_BYTES, KYBER512_SECRETKEY_BYTES};
use crate::random::{generate_nonce, random_bytes_32};
use crate::symmetric::chacha20::{
    chacha20poly1305_open, chacha20poly1305_opened, chacha20poly1305_seal,
    chacha20poly1305_sealed, encrypt_data_with_nonce, encrypted_data_under, result_bytes, sealable, sealed_under,
};
use crate::types::{Encapsulation, PublicKey};

verus! {

/// `out` is `kem_ct`, then a 12-byte nonce, then the sealing under `key`
/// and that nonce of `plaintext` followed by `associated_data`.
pub open spec fn encapsulated_ciphertext(
    key: Seq<u8>,
    kem_ct: Seq<u8>,
    plaintext: Seq<u8>,
    associated_data: Seq<u8>,
    out: Seq<u8>,
) -> bool {
    let n = kem_ct.len() as int;
    &&& out.len() >= n + 12
    &&& out.subrange(0, n) == kem_ct
    &&& sealed_under(
        key,
        out.subrange(n, n + 12),
        plaintext + associated_data,
        out.subrange(n + 12, out.len() as int),
    )
}

/// `out` is a key-pair ciphertext of `plaintext` and `associated_data`
/// whose Kyber512 ciphertext (its first 768 bytes) encapsulates the shared
/// secret `raw`.
pub open spec fn hybrid_ciphertext_of(
    raw: Seq<u8>,
    plaintext: Seq<u8>,
    associated_data: Seq<u8>,
    out: Seq<u8>,
) -> bool {
    &&& raw.len() == 32
    &&& out.len() >= KYBER512_CIPHERTEXT_BYTES
    &&& encapsulated_ciphertext(
        hkdf_sha3_256(raw, KEM_KDF_INFO@),
        out.subrange(0, KYBER512_CIPHERTEXT_BYTES as int),
        plaintext,
        associated_data,
        out,
    )
}

/// What decrypting the key-pair ciphertext `ct` with the Kyber512 secret
/// key `kyber_sk` and the associated data `ad` yields.
pub open spec fn hybrid_decryption(kyber_sk: Seq<u8>, ct: Seq<u8>, ad: Seq<u8>) -> Result<
    Seq<u8>,
    CryptoError,
> {
    if ct.len() < KYBER512_CIPHERTEXT_BYTES + 12 {
        Err(CryptoError::CiphertextTooShort)
    } else if kyber_sk.len() != KYBER512_SECRETKEY_BYTES {
        Err(CryptoError::InvalidKyberSecretKey)
    } else {
        let n = KYBER512_CIPHERTEXT_BYTES as int;
        let key = hkdf_sha3_256(kyber512_shared_secret(ct.subrange(0, n), kyber_sk), KEM_KDF_INFO@);
        match chacha20poly1305_opened(key, ct.subrange(n, n + 12), ct.subrange(n + 12, ct.len() as int)) {
            None => Err(CryptoError::DecryptionFailed),
            Some(combined) => trailing_split(combined, ad),
        }
    }
}

/// What ChaCha20-Poly1305 opens from the key-pair ciphertext `ct` (after
/// its Kyber512 part and nonce) under the key that HKDF derives from the
/// shared secret `kyber_sk` decapsulates from its Kyber512 part.
pub open spec fn keypair_payload(kyber_sk: Seq<u8>, ct: Seq<u8>) -> Option<Seq<u8>> {
    let n = KYBER512_CIPHERTEXT_BYTES as int;
    chacha20poly1305_opened(
        hkdf_sha3_256(kyber512_shared_secret(ct.subrange(0, n), kyber_sk), KEM_KDF_INFO@),
        ct.subrange(n, n + 12),
        ct.subrange(n + 12, ct.len() as int),
    )
}

/// Splitting the associated data `ad` off the end of decrypted data `d`:
/// what precedes it, or an error when `d` is shorter than `ad` or does not
/// end with it.
pub open spec fn trailing_split(d: Seq<u8>, ad: Seq<u8>) -> Result<Seq<u8>, CryptoError> {
    let cut = d.len() - ad.len();
    if d.len() < ad.len() {
        Err(CryptoError::DecryptedDataTooShort)
    } else if d.subrange(cut, d.len() as int) != ad {
        Err(CryptoError::AssociatedDataMismatch)
    } else {
        Ok(d.subrange(0, cut))
    }
}

/// `out` is `BLAKE3(key_id || key)` followed by the [`encrypt_data`] output
/// of `data` under the symmetric `key`.
pub open spec fn hybrid_envelope(key_id: Seq<u8>, key: Seq<u8>, data: Seq<u8>, out: Seq<u8>) -> bool {
    &&& key.len() == 32
    &&& out.len() >= 32
    &&& out.subrange(0, 32) == blake3_digest(key_id + key)
    &&& encrypted_data_under(key, data, out.subrange(32, out.len() as int))
}

/// Hybrid encryption under a public key with a given symmetric key and
/// nonce: the BLAKE3 digest of the key id followed by the symmetric key,
/// then the [`encrypt_data_with_nonce`] output of the data.
pub fn hybrid_encrypt_with_key(
    data: &[u8],
    public_key: &PublicKey,
    symmetric_key: &[u8; 32],
    nonce: &[u8; 12],
) -> (res: Result<Vec<u8>, CryptoError>)
    ensures
        res is Ok <==> sealable(data@.len()),
        res is Err ==> res == Err::<Vec<u8>, CryptoError>(CryptoError::EncryptionFailed),
        res matches Ok(out) ==> out@ == blake3_digest(public_key@.key_id + symmetric_key@) + nonce@
            + chacha20poly1305_sealed(symmetric_key@, nonce@, data@),
        res matches Ok(out) ==> hybrid_envelope(public_key@.key_id, symmetric_key@, data@, out@),
{
    let encrypted_data = encrypt_data_with_nonce(data, symmetric_key, nonce)?;
    let mut key_data: Vec<u8> = Vec::new();
    append_bytes(&mut key_data, &public_key.key_id);
    append_bytes(&mut key_data, symmetric_key);
    let encapsulated_key = hash_blake3(key_data.as_slice());
    let mut result: Vec<u8> = Vec::new();
    append_bytes(&mut result, &encapsulated_key);
    append_bytes(&mut result, encrypted_data.as_slice());
    assert(result@.subrange(0, 32) =~= encapsulated_key@);
    assert(result@.subrange(32, result@.len() as int) =~= encrypted_data@);
    Ok(result)
}

/// Hybrid encryption under a public key: the data is encrypted under a
/// fresh random symmetric key and nonce (see [`hybrid_encrypt_with_key`]).
pub fn hybrid_encrypt(data: &[u8], public_key: &PublicKey) -> (res: Result<Vec<u8>, CryptoError>)
    ensures
        res is Ok <==> sealable(data@.len()),
        res is Err ==> res == Err::<Vec<u8>, CryptoError>(CryptoError::EncryptionFailed),
        res matches Ok(out) ==> exists|key: Seq<u8>|
            #[trigger] hybrid_envelope(public_key@.key_id, key, data@, out@),
{
    let symmetric_key = random_bytes_32();
    let nonce = generate_nonce();
    let res = hybrid_encrypt_with_key(data, public_key, &symmetric_key, &nonce);
    assert(res matches Ok(out) ==> hybrid_envelope(public_key@.key_id, symmetric_key@, data@, out@));
    res
}

/// Hybrid decryption is not available: it needs a proper KEM. Input
/// shorter than the 32-byte encapsulated key is refused as too short, and
/// everything else as unsupported.
pub fn hybrid_decrypt(encrypted_data: &[u8], keypair: &KeyPair) -> (res: Result<Vec<u8>, CryptoError>)
    ensures
        encrypted_data@.len() < 32 ==> res == Err::<Vec<u8>, CryptoError>(
            CryptoError::EncryptedDataTooShort,
        ),
        encrypted_data@.len() >= 32 ==> res == Err::<Vec<u8>, CryptoError>(
            CryptoError::HybridKemUnavailable,
        ),
{
    if encrypted_data.len() < 32 {
        return Err(CryptoError::EncryptedDataTooShort);
    }
    Err(CryptoError::HybridKemUnavailable)
}

/// Encrypt `plaintext` and `associated_data` under the key of an
/// encapsulation with a given nonce: its KEM ciphertext, the nonce, then the
/// ChaCha20-Poly1305 sealing of the plaintext followed by the associated
/// data.
pub fn encrypt_with_encapsulation_and_nonce(
    plaintext: &[u8],
    associated_data: &[u8],
    encapsulation: &Encapsulation,
    nonce: &[u8; 12],
) -> (res: Result<Vec<u8>, CryptoError>)
    ensures
        res is Ok <==> sealable(plaintext@.len() + associated_data@.len()),
        res is Err ==> res == Err::<Vec<u8>, CryptoError>(CryptoError::EncryptionFailed),
        res matches Ok(out) ==> out@ == encapsulation@.ciphertext + nonce@
            + chacha20poly1305_sealed(
            encapsulation@.shared_secret,
            nonce@,
            plaintext@ + associated_data@,
        ),
        res matches Ok(out) ==> encapsulated_ciphertext(
            encapsulation@.shared_secret,
            encapsulation@.ciphertext,
            plaintext@,
            associated_data@,
            out@,
        ),
{
    let mut combined_data: Vec<u8> = Vec::new();
    append_bytes(&mut combined_data, plaintext);
    append_bytes(&mut combined_data, associated_data);
    let encrypted = match chacha20poly1305_seal(&encapsulation.shared_secret, nonce, combined_data.as_slice()) {
        Some(ct) => ct,
        None => return Err(CryptoError::EncryptionFailed),
    };
    let mut ciphertext: Vec<u8> = Vec::new();
    append_bytes(&mut ciphertext, encapsulation.ciphertext.as_slice());
    append_bytes(&mut ciphertext, nonce);
    append_bytes(&mut ciphertext, encrypted.as_slice());
    let ghost n = encapsulation@.ciphertext.len() as int;
    assert(ciphertext@.subrange(0, n) =~= encapsulation@.ciphertext);
    assert(ciphertext@.subrange(n, n + 12) =~= nonce@);
    assert(ciphertext@.subrange(n + 12, ciphertext@.len() as int) =~= encrypted@);
    Ok(ciphertext)
}

/// Encrypt `plaintext` and `associated_data` under the key of an
/// encapsulation with a fresh random nonce (see
/// [`encrypt_with_encapsulation_and_nonce`]).
pub fn encrypt_with_encapsulation(
    plaintext: &[u8],
    associated_data: &[u8],
    encapsulation: &Encapsulation,
) -> (res: Result<Vec<u8>, CryptoError>)
    ensures
        res is Ok <==> sealable(plaintext@.len() + associated_data@.len()),
        res is Err ==> res == Err::<Vec<u8>, CryptoError>(CryptoError::EncryptionFailed),
        res matches Ok(out) ==> encapsulated_ciphertext(
            encapsulation@.shared_secret,
            encapsulation@.ciphertext,
            plaintext@,
            associated_data@,
            out@,
        ),
{
    let nonce = generate_nonce();
    encrypt_with_encapsulation_and_nonce(plaintext, associated_data, encapsulation, &nonce)
}

/// Decrypt a key-pair ciphertext: decapsulate the symmetric key from its
/// Kyber512 part, open the ChaCha20-Poly1305 part, and check that the
/// opened data ends with `associated_data`, which is stripped.
pub fn decrypt_with_keypair(ciphertext: &[u8], associated_data: &[u8], keypair: &KeyPair) -> (res:
    Result<Vec<u8>, CryptoError>)
    ensures
        result_bytes(res) == hybrid_decryption(
            keypair@.private_key.kyber_sk,
            ciphertext@,
            associated_data@,
        ),
        res matches Ok(p) ==> keypair_payload(keypair@.private_key.kyber_sk, ciphertext@) == Some(
            p@ + associated_data@,
        ),
{
    if ciphertext.len() < KYBER512_CIPHERTEXT_BYTES + 12 {
        return Err(CryptoError::CiphertextTooShort);
    }
    let kyber_ct = copy_range(ciphertext, 0, KYBER512_CIPHERTEXT_BYTES);
    let nonce = copy_range(ciphertext, KYBER512_CIPHERTEXT_BYTES, KYBER512_CIPHERTEXT_BYTES + 12);
    let symmetric_ct = copy_range(ciphertext, KYBER512_CIPHERTEXT_BYTES + 12, ciphertext.len());
    let encapsulation = Encapsulation {
        ciphertext: kyber_ct,
        shared_secret: [0u8; 32],
        kdf_info: copy_bytes(&KEM_KDF_INFO),
    };
    let shared_secret = keypair.decapsulate(&encapsulation)?;
    let combined_data = match chacha20poly1305_open(&shared_secret, nonce.as_slice(), symmetric_ct.as_slice()) {
        Some(m) => m,
        None => return Err(CryptoError::DecryptionFailed),
    };
    if combined_data.len() < associated_data.len() {
        return Err(CryptoError::DecryptedDataTooShort);
    }
    let plaintext_len = combined_data.len() - associated_data.len();
    let extracted_ad = copy_range(combined_data.as_slice(), plaintext_len, combined_data.len());
    if !bytes_eq(extracted_ad.as_slice(), associated_data) {
        return Err(CryptoError::AssociatedDataMismatch);
    }
    let plaintext = copy_range(combined_data.as_slice(), 0, plaintext_len);
    assert(combined_data@ =~= plaintext@ + associated_data@);
    Ok(plaintext)
}

/// Whenever key-pair decryption succeeds, ChaCha20-Poly1305 opened, under
/// the key derived from the ciphertext's Kyber512 part, exactly the returned
/// plaintext followed by the associated data given to decryption: every
/// byte of that associated data is checked.
pub proof fn lemma_decryption_checks_associated_data(kyber_sk: Seq<u8>, ct: Seq<u8>, ad: Seq<u8>)
    ensures
        hybrid_decryption(kyber_sk, ct, ad) matches Ok(p) ==> {
            &&& ct.len() >= KYBER512_CIPHERTEXT_BYTES + 12
            &&& kyber_sk.len() == KYBER512_SECRETKEY_BYTES
            &&& keypair_payload(kyber_sk, ct) == Some(p + ad)
        },
{
    if let Ok(p) = hybrid_decryption(kyber_sk, ct, ad) {
        let combined = keypair_payload(kyber_sk, ct)->0;
        assert(combined =~= p + ad);
    }
}

/// Decrypting a key-pair ciphertext with a Kyber512 secret key that
/// recovers its encapsulated shared secret opens the plaintext followed by
/// the associated data it was made with; the associated data `ad` given to
/// decryption is then checked as the trailing part of that.
pub proof fn lemma_decrypt_inverts_encrypt(
    kyber_sk: Seq<u8>,
    raw: Seq<u8>,
    plaintext: Seq<u8>,
    associated_data: Seq<u8>,
    ad: Seq<u8>,
    ct: Seq<u8>,
)
    requires
        hybrid_ciphertext_of(raw, plaintext, associated_data, ct),
        kyber_sk.len() == KYBER512_SECRETKEY_BYTES,
        kyber512_shared_secret(ct.subrange(0, KYBER512_CIPHERTEXT_BYTES as int), kyber_sk) == raw,
    ensures
        hybrid_decryption(kyber_sk, ct, ad) == trailing_split(plaintext + associated_data, ad),
{
}

} // verus!
