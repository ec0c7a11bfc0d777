//! Key-pair operations: signing, verification, key encapsulation, hybrid
//! encryption and the zero-knowledge proof entry points.

use vstd::prelude::*;
use crate::bytes::copy_bytes;
use crate::classical::{
    ed25519_accepts, ed25519_public_key, ed25519_sign_bytes, ed25519_signature,
    ed25519_verify_bytes,
};
use crate::error::{CryptoError, ZkCircuit};
use crate::kdf::{hkdf_sha3_256, hkdf_sha3_expand_32};
use crate::keypair::{generated_keypair, kyber512_recovers, KeyPair, KeyPairView};
use crate::post_quantum::{
    dilithium2_open, dilithium2_opened, dilithium2_sign, dilithium2_signed_message,
    dilithium5_open, dilithium5_opened, kyber512_decapsulate, kyber512_encapsulate,
    kyber512_encapsulates, kyber512_shared_secret, DILITHIUM2_PUBLICKEY_BYTES,
    DILITHIUM2_SECRETKEY_BYTES, DILITHIUM2_SIGNATURE_BYTES, DILITHIUM5_PUBLICKEY_BYTES,
    DILITHIUM5_SIGNATURE_BYTES, KYBER512_CIPHERTEXT_BYTES, KYBER512_PUBLICKEY_BYTES,
    KYBER512_SECRETKEY_BYTES,
};
use crate::random::unix_time_secs;
use crate::symmetric::chacha20::{result_bytes, sealable};
use crate::symmetric::hybrid::{
    decrypt_with_keypair, encapsulated_ciphertext, encrypt_with_encapsulation,
    hybrid_ciphertext_of, hybrid_decryption, keypair_payload, lemma_decrypt_inverts_encrypt,
    lemma_decryption_checks_associated_data, trailing_split,
};
use crate::types::{Encapsulation, EncapsulationView, Signature, SignatureAlgorithm, SignatureView};
use crate::zk_integration::plonky2::Plonky2Proof;

verus! {

/// `ZHTP-KEM-v1.0`, the HKDF info string for keys derived from Kyber512
/// shared secrets.
pub const KEM_KDF_INFO: [u8; 13] = [
    90u8,
    72u8,
    84u8,
    80u8,
    45u8,
    75u8,
    69u8,
    77u8,
    45u8,
    118u8,
    49u8,
    46u8,
    48u8,
];

/// `sig` is the Dilithium2 signature of `msg` made by `kp`.
pub open spec fn dilithium_signature_of(kp: KeyPairView, msg: Seq<u8>, sig: SignatureView) -> bool {
    &&& sig.signature == dilithium2_signed_message(kp.private_key.dilithium_sk, msg)
    &&& carries_message(sig.signature, DILITHIUM2_SIGNATURE_BYTES as nat, msg)
    &&& sig.public_key == kp.public_key
    &&& sig.algorithm == SignatureAlgorithm::Dilithium2
}

/// `sig` is the Ed25519 signature of `msg` made by `kp`; it verifies under
/// the public key of `kp`'s Ed25519 secret key.
pub open spec fn ed25519_signature_of(kp: KeyPairView, msg: Seq<u8>, sig: SignatureView) -> bool {
    &&& sig.signature == ed25519_signature(kp.private_key.ed25519_sk, msg)
    &&& sig.signature.len() == 64
    &&& ed25519_accepts(ed25519_public_key(kp.private_key.ed25519_sk), sig.signature, msg)
    &&& sig.public_key == kp.public_key
    &&& sig.algorithm == SignatureAlgorithm::Ed25519
}

/// The signed message `sm` holds at least `n` signature bytes, followed by
/// exactly `msg`.
pub open spec fn carries_message(sm: Seq<u8>, n: nat, msg: Seq<u8>) -> bool {
    sm.len() >= n && sm.subrange(n as int, sm.len() as int) == msg
}

/// What [`KeyPair::verify`] returns for a signature and message.
pub open spec fn keypair_verification(sig: SignatureView, msg: Seq<u8>) -> Result<bool, CryptoError> {
    match sig.algorithm {
        SignatureAlgorithm::Dilithium2 => {
            if sig.public_key.dilithium_pk.len() != DILITHIUM2_PUBLICKEY_BYTES {
                Err(CryptoError::InvalidDilithiumPublicKey)
            } else {
                Ok(dilithium2_opened(sig.signature, sig.public_key.dilithium_pk) == Some(msg))
            }
        },
        SignatureAlgorithm::Dilithium5 => {
            if sig.public_key.dilithium_pk.len() != DILITHIUM5_PUBLICKEY_BYTES {
                Err(CryptoError::InvalidDilithium5PublicKey)
            } else {
                Ok(dilithium5_opened(sig.signature, sig.public_key.dilithium_pk) == Some(msg))
            }
        },
        SignatureAlgorithm::Ed25519 => {
            if sig.signature.len() != 64 || sig.public_key.ed25519_pk.len() != 32 {
                Ok(false)
            } else {
                Ok(ed25519_accepts(sig.public_key.ed25519_pk, sig.signature, msg))
            }
        },
        SignatureAlgorithm::RingSignature => Ok(true),
    }
}

/// `e` holds a Kyber512 ciphertext that encapsulates the 32-byte shared
/// secret `raw` to the public key `kyber_pk`, the KEM info string, and the
/// key that HKDF derives with that info from `raw`.
pub open spec fn fresh_encapsulation(kyber_pk: Seq<u8>, e: EncapsulationView, raw: Seq<u8>) -> bool {
    &&& raw.len() == 32
    &&& e.ciphertext.len() == KYBER512_CIPHERTEXT_BYTES
    &&& kyber512_encapsulates(kyber_pk, e.ciphertext, raw)
    &&& e.kdf_info == KEM_KDF_INFO@
    &&& e.shared_secret == hkdf_sha3_256(raw, KEM_KDF_INFO@)
}

/// `e` is a fresh encapsulation to the Kyber512 public key `kyber_pk`.
pub open spec fn encapsulation_for(kyber_pk: Seq<u8>, e: EncapsulationView) -> bool {
    exists|raw: Seq<u8>| #[trigger] fresh_encapsulation(kyber_pk, e, raw)
}

/// `out` is a key-pair ciphertext of `plaintext` and `associated_data`
/// whose Kyber512 part encapsulates the secret `raw` to `kyber_pk`.
pub open spec fn encrypted_with(
    kyber_pk: Seq<u8>,
    raw: Seq<u8>,
    plaintext: Seq<u8>,
    associated_data: Seq<u8>,
    out: Seq<u8>,
) -> bool {
    &&& hybrid_ciphertext_of(raw, plaintext, associated_data, out)
    &&& kyber512_encapsulates(kyber_pk, out.subrange(0, KYBER512_CIPHERTEXT_BYTES as int), raw)
}

/// `out` is a key-pair ciphertext of `plaintext` and `associated_data` for
/// the Kyber512 public key `kyber_pk`.
pub open spec fn encrypted_to(
    kyber_pk: Seq<u8>,
    plaintext: Seq<u8>,
    associated_data: Seq<u8>,
    out: Seq<u8>,
) -> bool {
    exists|raw: Seq<u8>| #[trigger] encrypted_with(kyber_pk, raw, plaintext, associated_data, out)
}

/// What [`KeyPair::decapsulate`] yields with the Kyber512 secret key
/// `kyber_sk`.
pub open spec fn decapsulation(kyber_sk: Seq<u8>, e: EncapsulationView) -> Result<Seq<u8>, CryptoError> {
    if kyber_sk.len() != KYBER512_SECRETKEY_BYTES {
        Err(CryptoError::InvalidKyberSecretKey)
    } else if e.ciphertext.len() != KYBER512_CIPHERTEXT_BYTES {
        Err(CryptoError::InvalidKyberCiphertext)
    } else {
        Ok(hkdf_sha3_256(kyber512_shared_secret(e.ciphertext, kyber_sk), e.kdf_info))
    }
}

/// The view of a key result.
pub open spec fn result_key(r: Result<[u8; 32], CryptoError>) -> Result<Seq<u8>, CryptoError> {
    match r {
        Ok(k) => Ok(k@),
        Err(e) => Err(e),
    }
}

/// The 64-bit little-endian value of `bytes`.
pub open spec fn le_value(bytes: Seq<u8>) -> nat
    decreases bytes.len(),
{
    if bytes.len() == 0 {
        0
    } else {
        bytes[0] as nat + 256 * le_value(bytes.drop_first())
    }
}

/// `256` to the power `n`.
pub open spec fn byte_pow(n: nat) -> nat
    decreases n,
{
    if n == 0 {
        1
    } else {
        256 * byte_pow((n - 1) as nat)
    }
}

proof fn lemma_le_value_bound(bytes: Seq<u8>)
    ensures
        le_value(bytes) < byte_pow(bytes.len()),
    decreases bytes.len(),
{
    if bytes.len() > 0 {
        lemma_le_value_bound(bytes.drop_first());
    }
}

proof fn lemma_byte_pow_monotonic(a: nat, b: nat)
    requires
        a <= b,
    ensures
        byte_pow(a) <= byte_pow(b),
    decreases b,
{
    if a < b {
        lemma_byte_pow_monotonic(a, (b - 1) as nat);
    }
}

/// The little-endian `u64` stored in `key_id[start..start + 8]`.
fn key_id_word(key_id: &[u8; 32], start: usize) -> (w: u64)
    requires
        start + 8 <= 32,
    ensures
        w as nat == le_value(key_id@.subrange(start as int, start + 8)),
{
    let mut acc: u64 = 0;
    let mut j: usize = 8;
    while j > 0
        invariant
            start + 8 <= 32,
            j <= 8,
            acc as nat == le_value(key_id@.subrange(start + j, start + 8)),
        decreases j,
    {
        j = j - 1;
        let ghost rest = key_id@.subrange(start + j + 1, start + 8);
        let ghost cur = key_id@.subrange(start + j, start + 8);
        assert(cur.drop_first() =~= rest);
        proof {
            lemma_le_value_bound(rest);
            lemma_byte_pow_monotonic(rest.len(), 7);
            reveal_with_fuel(byte_pow, 8);
        }
        acc = acc * 256 + key_id[start + j] as u64;
    }
    assert(key_id@.subrange(start as int, start + 8) =~= key_id@.subrange(start + 0, start + 8));
    acc
}

impl KeyPair {
    /// Sign a message with CRYSTALS-Dilithium2, stamping the signature with
    /// the given time in seconds since the Unix epoch.
    pub fn sign_at(&self, message: &[u8], timestamp: u64) -> (res: Result<Signature, CryptoError>)
        ensures
            self@.private_key.dilithium_sk.len() != DILITHIUM2_SECRETKEY_BYTES ==> (res matches Err(
                e,
            ) && e == CryptoError::InvalidDilithiumSecretKey),
            self@.private_key.dilithium_sk.len() == DILITHIUM2_SECRETKEY_BYTES ==> (res matches Ok(
                sig,
            ) && dilithium_signature_of(self@, message@, sig@) && sig@.timestamp == timestamp),
    {
        let signed = match dilithium2_sign(self.private_key.dilithium_sk.as_slice(), message) {
            Some(sm) => sm,
            None => return Err(CryptoError::InvalidDilithiumSecretKey),
        };
        Ok(
            Signature {
                signature: signed,
                public_key: self.public_key.copy_key(),
                algorithm: SignatureAlgorithm::Dilithium2,
                timestamp,
            },
        )
    }

    /// Sign a message with CRYSTALS-Dilithium2, stamped with the current
    /// time (see [`KeyPair::sign_at`]).
    pub fn sign(&self, message: &[u8]) -> (res: Result<Signature, CryptoError>)
        ensures
            self@.private_key.dilithium_sk.len() != DILITHIUM2_SECRETKEY_BYTES ==> (res matches Err(
                e,
            ) && e == CryptoError::InvalidDilithiumSecretKey),
            self@.private_key.dilithium_sk.len() == DILITHIUM2_SECRETKEY_BYTES ==> (res matches Ok(
                sig,
            ) && dilithium_signature_of(self@, message@, sig@)),
    {
        self.sign_at(message, unix_time_secs())
    }

    /// Sign a message with Ed25519 for compatibility, stamping the signature
    /// with the given time in seconds since the Unix epoch.
    pub fn sign_ed25519_at(&self, message: &[u8], timestamp: u64) -> (res: Result<
        Signature,
        CryptoError,
    >)
        ensures
            self@.private_key.ed25519_sk.len() != 32 ==> (res matches Err(e) && e
                == CryptoError::InvalidEd25519SecretKey),
            self@.private_key.ed25519_sk.len() == 32 ==> (res matches Ok(sig)
                && ed25519_signature_of(self@, message@, sig@) && sig@.timestamp == timestamp),
    {
        if self.private_key.ed25519_sk.len() != 32 {
            return Err(CryptoError::InvalidEd25519SecretKey);
        }
        let signature = ed25519_sign_bytes(self.private_key.ed25519_sk.as_slice(), message);
        Ok(
            Signature {
                signature: copy_bytes(&signature),
                public_key: self.public_key.copy_key(),
                algorithm: SignatureAlgorithm::Ed25519,
                timestamp,
            },
        )
    }

    /// Sign a message with Ed25519 for compatibility, stamped with the
    /// current time (see [`KeyPair::sign_ed25519_at`]).
    pub fn sign_ed25519(&self, message: &[u8]) -> (res: Result<Signature, CryptoError>)
        ensures
            self@.private_key.ed25519_sk.len() != 32 ==> (res matches Err(e) && e
                == CryptoError::InvalidEd25519SecretKey),
            self@.private_key.ed25519_sk.len() == 32 ==> (res matches Ok(sig)
                && ed25519_signature_of(self@, message@, sig@)),
    {
        self.sign_ed25519_at(message, unix_time_secs())
    }

    /// Verify a signature with the algorithm and public key it carries.
    pub fn verify(&self, signature: &Signature, message: &[u8]) -> (res: Result<bool, CryptoError>)
        ensures
            res == keypair_verification(signature@, message@),
            signature@.algorithm == SignatureAlgorithm::Dilithium2
                && signature@.public_key.dilithium_pk.len() == DILITHIUM2_PUBLICKEY_BYTES ==> res
                == Ok::<bool, CryptoError>(
                dilithium2_opened(signature@.signature, signature@.public_key.dilithium_pk) == Some(
                    message@,
                ),
            ),
            signature@.algorithm == SignatureAlgorithm::Dilithium5
                && signature@.public_key.dilithium_pk.len() == DILITHIUM5_PUBLICKEY_BYTES ==> res
                == Ok::<bool, CryptoError>(
                dilithium5_opened(signature@.signature, signature@.public_key.dilithium_pk) == Some(
                    message@,
                ),
            ),
            signature@.algorithm == SignatureAlgorithm::Dilithium2
                && signature@.public_key.dilithium_pk.len() == DILITHIUM2_PUBLICKEY_BYTES
                && !carries_message(signature@.signature, DILITHIUM2_SIGNATURE_BYTES as nat, message@)
                ==> res == Ok::<bool, CryptoError>(false),
            signature@.algorithm == SignatureAlgorithm::Dilithium5
                && signature@.public_key.dilithium_pk.len() == DILITHIUM5_PUBLICKEY_BYTES
                && !carries_message(signature@.signature, DILITHIUM5_SIGNATURE_BYTES as nat, message@)
                ==> res == Ok::<bool, CryptoError>(false),
    {
        match signature.algorithm {
            SignatureAlgorithm::Dilithium2 => {
                match dilithium2_open(
                    signature.signature.as_slice(),
                    signature.public_key.dilithium_pk.as_slice(),
                ) {
                    None => Err(CryptoError::InvalidDilithiumPublicKey),
                    Some(Some(verified_message)) => Ok(
                        crate::bytes::bytes_eq(verified_message.as_slice(), message),
                    ),
                    Some(None) => Ok(false),
                }
            },
            SignatureAlgorithm::Dilithium5 => {
                match dilithium5_open(
                    signature.signature.as_slice(),
                    signature.public_key.dilithium_pk.as_slice(),
                ) {
                    None => Err(CryptoError::InvalidDilithium5PublicKey),
                    Some(Some(verified_message)) => Ok(
                        crate::bytes::bytes_eq(verified_message.as_slice(), message),
                    ),
                    Some(None) => Ok(false),
                }
            },
            SignatureAlgorithm::Ed25519 => {
                if signature.signature.len() != 64 {
                    return Ok(false);
                }
                if signature.public_key.ed25519_pk.len() != 32 {
                    return Ok(false);
                }
                Ok(
                    ed25519_verify_bytes(
                        signature.public_key.ed25519_pk.as_slice(),
                        signature.signature.as_slice(),
                        message,
                    ),
                )
            },
            SignatureAlgorithm::RingSignature => self.verify_ring_signature(signature, message),
        }
    }

    /// Ring signatures carried in a [`Signature`] are accepted as they are.
    fn verify_ring_signature(&self, signature: &Signature, message: &[u8]) -> (res: Result<
        bool,
        CryptoError,
    >)
        ensures
            res == Ok::<bool, CryptoError>(true),
    {
        Ok(true)
    }

    /// Encapsulate a fresh shared secret to this key pair's Kyber512 public
    /// key, and derive a 32-byte key from it with HKDF-SHA3.
    pub fn encapsulate(&self) -> (res: Result<Encapsulation, CryptoError>)
        ensures
            self@.public_key.kyber_pk.len() != KYBER512_PUBLICKEY_BYTES ==> (res matches Err(e)
                && e == CryptoError::InvalidKyberPublicKey),
            self@.public_key.kyber_pk.len() == KYBER512_PUBLICKEY_BYTES ==> (res matches Ok(e)
                && encapsulation_for(self@.public_key.kyber_pk, e@)),
    {
        let (shared_secret_bytes, ciphertext) = match kyber512_encapsulate(
            self.public_key.kyber_pk.as_slice(),
        ) {
            Some(pair) => pair,
            None => return Err(CryptoError::InvalidKyberPublicKey),
        };
        let shared_secret = match hkdf_sha3_expand_32(shared_secret_bytes.as_slice(), &KEM_KDF_INFO) {
            Some(k) => k,
            None => return Err(CryptoError::HkdfExpansionFailed),
        };
        let encapsulation = Encapsulation {
            ciphertext,
            shared_secret,
            kdf_info: copy_bytes(&KEM_KDF_INFO),
        };
        assert(fresh_encapsulation(self@.public_key.kyber_pk, encapsulation@, shared_secret_bytes@));
        Ok(encapsulation)
    }

    /// Recover the 32-byte key of an encapsulation with this key pair's
    /// Kyber512 secret key.
    pub fn decapsulate(&self, encapsulation: &Encapsulation) -> (res: Result<[u8; 32], CryptoError>)
        ensures
            result_key(res) == decapsulation(self@.private_key.kyber_sk, encapsulation@),
    {
        let shared_secret_bytes = match kyber512_decapsulate(
            encapsulation.ciphertext.as_slice(),
            self.private_key.kyber_sk.as_slice(),
        ) {
            Some(ss) => ss,
            None => {
                if self.private_key.kyber_sk.len() != KYBER512_SECRETKEY_BYTES {
                    return Err(CryptoError::InvalidKyberSecretKey);
                }
                return Err(CryptoError::InvalidKyberCiphertext);
            },
        };
        match hkdf_sha3_expand_32(shared_secret_bytes.as_slice(), encapsulation.kdf_info.as_slice()) {
            Some(k) => Ok(k),
            None => Err(CryptoError::HkdfExpansionFailed),
        }
    }

    /// Encrypt with hybrid post-quantum and symmetric cryptography: a fresh
    /// Kyber512 encapsulation, then ChaCha20-Poly1305 under the derived key
    /// (see [`encrypt_with_encapsulation`]).
    pub fn encrypt(&self, plaintext: &[u8], associated_data: &[u8]) -> (res: Result<
        Vec<u8>,
        CryptoError,
    >)
        ensures
            self@.public_key.kyber_pk.len() != KYBER512_PUBLICKEY_BYTES ==> res == Err::<
                Vec<u8>,
                CryptoError,
            >(CryptoError::InvalidKyberPublicKey),
            self@.public_key.kyber_pk.len() == KYBER512_PUBLICKEY_BYTES ==> {
                &&& res is Ok <==> sealable(plaintext@.len() + associated_data@.len())
                &&& res is Err ==> res == Err::<Vec<u8>, CryptoError>(CryptoError::EncryptionFailed)
            },
            res matches Ok(out) ==> encrypted_to(
                self@.public_key.kyber_pk,
                plaintext@,
                associated_data@,
                out@,
            ),
    {
        let encapsulation = self.encapsulate()?;
        let ghost pk = self@.public_key.kyber_pk;
        let ghost raw = choose|raw: Seq<u8>| fresh_encapsulation(pk, encapsulation@, raw);
        let out = encrypt_with_encapsulation(plaintext, associated_data, &encapsulation)?;
        assert(out@.subrange(0, KYBER512_CIPHERTEXT_BYTES as int) == encapsulation@.ciphertext);
        assert(encrypted_with(pk, raw, plaintext@, associated_data@, out@));
        Ok(out)
    }

    /// Decrypt a ciphertext made by [`KeyPair::encrypt`] (see
    /// [`decrypt_with_keypair`]).
    pub fn decrypt(&self, ciphertext: &[u8], associated_data: &[u8]) -> (res: Result<
        Vec<u8>,
        CryptoError,
    >)
        ensures
            result_bytes(res) == hybrid_decryption(
                self@.private_key.kyber_sk,
                ciphertext@,
                associated_data@,
            ),
            res matches Ok(p) ==> keypair_payload(self@.private_key.kyber_sk, ciphertext@) == Some(
                p@ + associated_data@,
            ),
    {
        decrypt_with_keypair(ciphertext, associated_data, self)
    }

    /// Identity proof through the default proof system, which fails.
    pub fn prove_identity(
        &self,
        age: u64,
        jurisdiction_hash: u64,
        credential_hash: u64,
        min_age: u64,
        required_jurisdiction: u64,
    ) -> (res: Result<Plonky2Proof, CryptoError>)
        ensures
            res matches Err(e) && e == CryptoError::ZkProofUnavailable(ZkCircuit::Identity),
    {
        crate::zk_integration::plonky2::prove_identity(
            &self.private_key,
            age,
            jurisdiction_hash,
            credential_hash,
            min_age,
            required_jurisdiction,
        )
    }

    /// Range proof through the default proof system, which fails; bytes
    /// 8..16 of the key id serve as the blinding factor.
    pub fn prove_range(&self, value: u64, min_value: u64, max_value: u64) -> (res: Result<
        Plonky2Proof,
        CryptoError,
    >)
        ensures
            res matches Err(e) && e == CryptoError::ZkProofUnavailable(ZkCircuit::Range),
    {
        let blinding_factor = key_id_word(&self.public_key.key_id, 8);
        crate::zk_integration::plonky2::prove_range(value, blinding_factor, min_value, max_value)
    }

    /// Storage access proof through the default proof system, which fails;
    /// bytes 16..24 and 24..32 of the key id serve as access key and
    /// requester secret.
    pub fn prove_storage_access(
        &self,
        data_hash: u64,
        permission_level: u64,
        required_permission: u64,
    ) -> (res: Result<Plonky2Proof, CryptoError>)
        ensures
            res matches Err(e) && e == CryptoError::ZkProofUnavailable(ZkCircuit::StorageAccess),
    {
        let access_key = key_id_word(&self.public_key.key_id, 16);
        let requester_secret = key_id_word(&self.public_key.key_id, 24);
        crate::zk_integration::plonky2::prove_storage_access(
            access_key,
            requester_secret,
            data_hash,
            permission_level,
            required_permission,
        )
    }
}

/// A Dilithium2 signature that a generated key pair makes verifies, under
/// [`KeyPair::verify`], for the message it signed.
pub proof fn lemma_verify_accepts_dilithium_signature(
    kp: KeyPairView,
    msg: Seq<u8>,
    sig: SignatureView,
)
    requires
        crate::keypair::generated_keypair(kp),
        dilithium_signature_of(kp, msg, sig),
    ensures
        keypair_verification(sig, msg) == Ok::<bool, CryptoError>(true),
{
    assert(dilithium2_opened(dilithium2_signed_message(kp.private_key.dilithium_sk, msg), kp.public_key.dilithium_pk) == Some(msg));
}

/// An Ed25519 signature that a generated key pair makes verifies, under
/// [`KeyPair::verify`], for the message it signed.
pub proof fn lemma_verify_accepts_ed25519_signature(
    kp: KeyPairView,
    msg: Seq<u8>,
    sig: SignatureView,
)
    requires
        crate::keypair::generated_keypair(kp),
        ed25519_signature_of(kp, msg, sig),
    ensures
        keypair_verification(sig, msg) == Ok::<bool, CryptoError>(true),
{
}

/// Decapsulating, with a generated key pair, an encapsulation made to that
/// key pair gives back the encapsulation's key, whenever the Kyber512 secret
/// key recovers the secret its ciphertext encapsulates.
pub proof fn lemma_decapsulate_recovers_key(kp: KeyPairView, e: EncapsulationView)
    requires
        generated_keypair(kp),
        encapsulation_for(kp.public_key.kyber_pk, e),
        kyber512_recovers(kp.public_key.kyber_pk, kp.private_key.kyber_sk, e.ciphertext),
    ensures
        decapsulation(kp.private_key.kyber_sk, e) == Ok::<Seq<u8>, CryptoError>(e.shared_secret),
{
    let raw = choose|raw: Seq<u8>| fresh_encapsulation(kp.public_key.kyber_pk, e, raw);
    assert(kyber512_shared_secret(e.ciphertext, kp.private_key.kyber_sk) == raw);
}

/// Decrypting a key-pair ciphertext made for a generated key pair, with any
/// associated data `ad`, opens the plaintext followed by the associated data
/// it was made with, and checks `ad` as the trailing part of that, whenever
/// the Kyber512 secret key recovers the secret its Kyber part encapsulates.
pub proof fn lemma_keypair_decrypt_opens_encrypted(
    kp: KeyPairView,
    plaintext: Seq<u8>,
    associated_data: Seq<u8>,
    ad: Seq<u8>,
    ct: Seq<u8>,
)
    requires
        generated_keypair(kp),
        encrypted_to(kp.public_key.kyber_pk, plaintext, associated_data, ct),
        kyber512_recovers(
            kp.public_key.kyber_pk,
            kp.private_key.kyber_sk,
            ct.subrange(0, KYBER512_CIPHERTEXT_BYTES as int),
        ),
    ensures
        hybrid_decryption(kp.private_key.kyber_sk, ct, ad) == trailing_split(
            plaintext + associated_data,
            ad,
        ),
{
    let raw = choose|raw: Seq<u8>|
        encrypted_with(kp.public_key.kyber_pk, raw, plaintext, associated_data, ct);
    assert(kyber512_shared_secret(
        ct.subrange(0, KYBER512_CIPHERTEXT_BYTES as int),
        kp.private_key.kyber_sk,
    ) == raw);
    lemma_decrypt_inverts_encrypt(kp.private_key.kyber_sk, raw, plaintext, associated_data, ad, ct);
}

/// Decrypting, with a generated key pair and the same associated data, what
/// [`KeyPair::encrypt`] made for that key pair gives the plaintext back,
/// whenever the Kyber512 secret key recovers the secret its Kyber part
/// encapsulates.
pub proof fn lemma_keypair_decrypt_inverts_encrypt(
    kp: KeyPairView,
    plaintext: Seq<u8>,
    associated_data: Seq<u8>,
    ct: Seq<u8>,
)
    requires
        generated_keypair(kp),
        encrypted_to(kp.public_key.kyber_pk, plaintext, associated_data, ct),
        kyber512_recovers(
            kp.public_key.kyber_pk,
            kp.private_key.kyber_sk,
            ct.subrange(0, KYBER512_CIPHERTEXT_BYTES as int),
        ),
    ensures
        hybrid_decryption(kp.private_key.kyber_sk, ct, associated_data) == Ok::<
            Seq<u8>,
            CryptoError,
        >(plaintext),
{
    lemma_keypair_decrypt_opens_encrypted(kp, plaintext, associated_data, associated_data, ct);
    let d = plaintext + associated_data;
    assert(d.subrange(plaintext.len() as int, d.len() as int) =~= associated_data);
    assert(d.subrange(0, plaintext.len() as int) =~= plaintext);
}

/// Encrypting under an encapsulation made to a generated key pair, then
/// decrypting with that key pair and the same associated data, gives the
/// plaintext back, whenever the Kyber512 secret key recovers the secret the
/// encapsulation's ciphertext encapsulates.
pub proof fn lemma_encapsulated_encryption_round_trip(
    kp: KeyPairView,
    e: EncapsulationView,
    plaintext: Seq<u8>,
    associated_data: Seq<u8>,
    ct: Seq<u8>,
)
    requires
        generated_keypair(kp),
        encapsulation_for(kp.public_key.kyber_pk, e),
        kyber512_recovers(kp.public_key.kyber_pk, kp.private_key.kyber_sk, e.ciphertext),
        encapsulated_ciphertext(e.shared_secret, e.ciphertext, plaintext, associated_data, ct),
    ensures
        hybrid_decryption(kp.private_key.kyber_sk, ct, associated_data) == Ok::<
            Seq<u8>,
            CryptoError,
        >(plaintext),
{
    let raw = choose|raw: Seq<u8>| fresh_encapsulation(kp.public_key.kyber_pk, e, raw);
    assert(ct.subrange(0, KYBER512_CIPHERTEXT_BYTES as int) == e.ciphertext);
    assert(encrypted_with(kp.public_key.kyber_pk, raw, plaintext, associated_data, ct));
    lemma_keypair_decrypt_inverts_encrypt(kp, plaintext, associated_data, ct);
}

/// Decrypting what [`KeyPair::encrypt`] made for a generated key pair with
/// associated data `a`, using other associated data `b` of the same length,
/// fails with an associated-data mismatch, whenever the Kyber512 secret key
/// recovers the secret the ciphertext's Kyber part encapsulates.
pub proof fn lemma_decrypt_rejects_other_associated_data(
    kp: KeyPairView,
    plaintext: Seq<u8>,
    a: Seq<u8>,
    b: Seq<u8>,
    ct: Seq<u8>,
)
    requires
        generated_keypair(kp),
        encrypted_to(kp.public_key.kyber_pk, plaintext, a, ct),
        kyber512_recovers(
            kp.public_key.kyber_pk,
            kp.private_key.kyber_sk,
            ct.subrange(0, KYBER512_CIPHERTEXT_BYTES as int),
        ),
        b.len() == a.len(),
        b != a,
    ensures
        hybrid_decryption(kp.private_key.kyber_sk, ct, b) == Err::<Seq<u8>, CryptoError>(
            CryptoError::AssociatedDataMismatch,
        ),
{
    lemma_keypair_decrypt_opens_encrypted(kp, plaintext, a, b, ct);
    lemma_decryption_checks_associated_data(kp.private_key.kyber_sk, ct, b);
    let d = plaintext + a;
    assert(d.subrange(plaintext.len() as int, d.len() as int) =~= a);
    let raw = choose|raw: Seq<u8>| encrypted_with(kp.public_key.kyber_pk, raw, plaintext, a, ct);
    assert(kyber512_shared_secret(
        ct.subrange(0, KYBER512_CIPHERTEXT_BYTES as int),
        kp.private_key.kyber_sk,
    ) == raw);
    assert(keypair_payload(kp.private_key.kyber_sk, ct) == Some(d));
}

/// A Dilithium5 signature carrying a 2592-byte public key verifies exactly
/// when Dilithium5 opens it, under that key, to the message; likewise a
/// Dilithium2 signature carrying a 1312-byte key with Dilithium2.
pub proof fn lemma_dilithium_verification(sig: SignatureView, msg: Seq<u8>)
    ensures
        sig.algorithm == SignatureAlgorithm::Dilithium5 && sig.public_key.dilithium_pk.len()
            == DILITHIUM5_PUBLICKEY_BYTES ==> keypair_verification(sig, msg) == Ok::<
            bool,
            CryptoError,
        >(dilithium5_opened(sig.signature, sig.public_key.dilithium_pk) == Some(msg)),
        sig.algorithm == SignatureAlgorithm::Dilithium2 && sig.public_key.dilithium_pk.len()
            == DILITHIUM2_PUBLICKEY_BYTES ==> keypair_verification(sig, msg) == Ok::<
            bool,
            CryptoError,
        >(dilithium2_opened(sig.signature, sig.public_key.dilithium_pk) == Some(msg)),
{
}

} // verus!
