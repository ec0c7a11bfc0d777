//! Public and private key types.

use vstd::prelude::*;
use crate::bytes::copy_bytes;
use crate::error::CryptoError;
use crate::hashing::{blake3_digest, hash_blake3};
use crate::types::signatures::Signature;
use crate::verification::signature_verify::{signature_accepted, verify_signature};

verus! {

/// Post-quantum public key.
#[derive(Debug, Clone, PartialEq, Eq, Hash)]
pub struct PublicKey {
    /// CRYSTALS-Dilithium public key for post-quantum signatures
    pub dilithium_pk: Vec<u8>,
    /// CRYSTALS-Kyber public key for post-quantum key encapsulation
    pub kyber_pk: Vec<u8>,
    /// Ed25519 public key for classical compatibility (may be empty)
    pub ed25519_pk: Vec<u8>,
    /// Key identifier for fast lookups
    pub key_id: [u8; 32],
}

/// The mathematical view of a [`PublicKey`].
pub struct PublicKeyView {
    pub dilithium_pk: Seq<u8>,
    pub kyber_pk: Seq<u8>,
    pub ed25519_pk: Seq<u8>,
    pub key_id: Seq<u8>,
}

impl View for PublicKey {
    type V = PublicKeyView;

    open spec fn view(&self) -> PublicKeyView {
        PublicKeyView {
            dilithium_pk: self.dilithium_pk@,
            kyber_pk: self.kyber_pk@,
            ed25519_pk: self.ed25519_pk@,
            key_id: self.key_id@,
        }
    }
}

/// The bytes that identify a public key: its Dilithium key, or its key id
/// when it has none.
pub open spec fn public_key_bytes(pk: PublicKeyView) -> Seq<u8> {
    if pk.dilithium_pk.len() > 0 {
        pk.dilithium_pk
    } else {
        pk.key_id
    }
}

impl PublicKey {
    /// Create a new public key from raw Dilithium bytes; the key id is their
    /// BLAKE3 digest and the other keys are empty.
    pub fn new(dilithium_pk: Vec<u8>) -> (pk: Self)
        ensures
            pk@.dilithium_pk == dilithium_pk@,
            pk@.kyber_pk == Seq::<u8>::empty(),
            pk@.ed25519_pk == Seq::<u8>::empty(),
            pk@.key_id == blake3_digest(dilithium_pk@),
    {
        let key_id = hash_blake3(dilithium_pk.as_slice());
        PublicKey { dilithium_pk, kyber_pk: Vec::new(), ed25519_pk: Vec::new(), key_id }
    }

    /// The size of this public key in bytes: the Dilithium and Kyber keys
    /// and the 32-byte key id.
    pub fn size(&self) -> (n: usize)
        requires
            self@.dilithium_pk.len() + self@.kyber_pk.len() + 32 <= usize::MAX,
        ensures
            n == self@.dilithium_pk.len() + self@.kyber_pk.len() + 32,
    {
        self.dilithium_pk.len() + self.kyber_pk.len() + 32
    }

    /// The key as bytes for signature verification: the Dilithium key, or
    /// the key id when there is no Dilithium key.
    pub fn as_bytes(&self) -> (b: Vec<u8>)
        ensures
            b@ == public_key_bytes(self@),
    {
        if self.dilithium_pk.len() > 0 {
            return copy_bytes(self.dilithium_pk.as_slice());
        }
        copy_bytes(&self.key_id)
    }

    /// Verify a signature against this public key with its Dilithium key.
    pub fn verify(&self, message: &[u8], signature: &Signature) -> (res: Result<bool, CryptoError>)
        ensures
            self@.dilithium_pk.len() == 0 ==> res == Err::<bool, CryptoError>(
                CryptoError::MissingDilithiumPublicKey,
            ),
            self@.dilithium_pk.len() > 0 ==> res == Ok::<bool, CryptoError>(
                signature_accepted(message@, signature@.signature, self@.dilithium_pk),
            ),
    {
        if self.dilithium_pk.len() == 0 {
            return Err(CryptoError::MissingDilithiumPublicKey);
        }
        verify_signature(message, signature.signature.as_slice(), self.dilithium_pk.as_slice())
    }

    /// A copy of this key with the same view.
    pub(crate) fn copy_key(&self) -> (pk: PublicKey)
        ensures
            pk@ == self@,
    {
        PublicKey {
            dilithium_pk: copy_bytes(self.dilithium_pk.as_slice()),
            kyber_pk: copy_bytes(self.kyber_pk.as_slice()),
            ed25519_pk: copy_bytes(self.ed25519_pk.as_slice()),
            key_id: self.key_id,
        }
    }
}

/// Post-quantum private key.
#[derive(Debug, Clone)]
pub struct PrivateKey {
    /// CRYSTALS-Dilithium secret key
    pub dilithium_sk: Vec<u8>,
    /// CRYSTALS-Kyber secret key
    pub kyber_sk: Vec<u8>,
    /// Ed25519 secret key (may be empty)
    pub ed25519_sk: Vec<u8>,
    /// Master seed for key derivation
    pub master_seed: Vec<u8>,
}

/// The mathematical view of a [`PrivateKey`].
pub struct PrivateKeyView {
    pub dilithium_sk: Seq<u8>,
    pub kyber_sk: Seq<u8>,
    pub ed25519_sk: Seq<u8>,
    pub master_seed: Seq<u8>,
}

impl View for PrivateKey {
    type V = PrivateKeyView;

    open spec fn view(&self) -> PrivateKeyView {
        PrivateKeyView {
            dilithium_sk: self.dilithium_sk@,
            kyber_sk: self.kyber_sk@,
            ed25519_sk: self.ed25519_sk@,
            master_seed: self.master_seed@,
        }
    }
}

impl PrivateKey {
    /// The size of this private key in bytes: the Dilithium and Kyber keys
    /// and the master seed.
    pub fn size(&self) -> (n: usize)
        requires
            self@.dilithium_sk.len() + self@.kyber_sk.len() + self@.master_seed.len()
                <= usize::MAX,
        ensures
            n == self@.dilithium_sk.len() + self@.kyber_sk.len() + self@.master_seed.len(),
    {
        self.dilithium_sk.len() + self.kyber_sk.len() + self.master_seed.len()
    }
}

} // verus!
