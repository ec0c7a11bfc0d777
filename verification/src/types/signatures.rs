//! Signature types.

use vstd::prelude::*;
use crate::types::keys::{PublicKey, PublicKeyView};

verus! {

/// Digital signature with the key and algorithm needed to check it.
#[derive(Debug, Clone)]
pub struct Signature {
    /// The actual signature bytes
    pub signature: Vec<u8>,
    /// Public key used for verification
    pub public_key: PublicKey,
    /// Signature algorithm identifier
    pub algorithm: SignatureAlgorithm,
    /// Timestamp of signature creation (seconds since the Unix epoch)
    pub timestamp: u64,
}

/// Supported signature algorithms.
#[derive(Debug, Clone, Copy, PartialEq, Eq, Structural)]
pub enum SignatureAlgorithm {
    /// CRYSTALS-Dilithium Level 2 (post-quantum)
    Dilithium2,
    /// CRYSTALS-Dilithium Level 5 (post-quantum, highest security)
    Dilithium5,
    /// Ed25519 (classical compatibility)
    Ed25519,
    /// Ring signature for anonymity
    RingSignature,
}

/// Another name for [`Signature`].
pub type PostQuantumSignature = Signature;

/// The mathematical view of a [`Signature`].
pub struct SignatureView {
    pub signature: Seq<u8>,
    pub public_key: PublicKeyView,
    pub algorithm: SignatureAlgorithm,
    pub timestamp: u64,
}

impl View for Signature {
    type V = SignatureView;

    open spec fn view(&self) -> SignatureView {
        SignatureView {
            signature: self.signature@,
            public_key: self.public_key@,
            algorithm: self.algorithm,
            timestamp: self.timestamp,
        }
    }
}

impl Default for Signature {
    /// An empty Dilithium2 signature with an empty public key, a zero key id
    /// and a zero timestamp.
    fn default() -> (sig: Self)
        ensures
            sig@.signature == Seq::<u8>::empty(),
            sig@.public_key.dilithium_pk == Seq::<u8>::empty(),
            sig@.public_key.kyber_pk == Seq::<u8>::empty(),
            sig@.public_key.ed25519_pk == Seq::<u8>::empty(),
            sig@.public_key.key_id == Seq::new(32, |i: int| 0u8),
            sig@.algorithm == SignatureAlgorithm::Dilithium2,
            sig@.timestamp == 0,
    {
        let sig = Signature {
            signature: Vec::new(),
            public_key: PublicKey {
                dilithium_pk: Vec::new(),
                kyber_pk: Vec::new(),
                ed25519_pk: Vec::new(),
                key_id: [0u8; 32],
            },
            algorithm: SignatureAlgorithm::Dilithium2,
            timestamp: 0,
        };
        assert(sig@.public_key.key_id =~= Seq::new(32, |i: int| 0u8));
        sig
    }
}

} // verus!
