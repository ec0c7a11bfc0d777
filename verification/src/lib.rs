//! Post-quantum cryptography foundation: CRYSTALS-Dilithium signatures,
//! CRYSTALS-Kyber key encapsulation, ChaCha20-Poly1305 hybrid encryption,
//! BLAKE3 hashing, Ed25519 compatibility, ring signatures and the interface
//! to zero-knowledge proof systems, each operation with a verified contract.

use vstd::prelude::*;

pub mod advanced;
pub mod bytes;
pub mod classical;
pub mod error;
pub mod hashing;
pub mod kdf;
pub mod keypair;
pub mod post_quantum;
pub mod random;
pub mod symmetric;
pub mod types;
pub mod verification;
pub mod zk_integration;

pub use advanced::{verify_ring_signature, RingContext, RingSignature};
pub use classical::curve25519_scalar_mult;
pub use error::{CryptoError, ZkCircuit};
pub use hashing::hash_blake3;
pub use keypair::KeyPair;
pub use random::generate_nonce;
pub use symmetric::{decrypt_data, encrypt_data, hybrid_decrypt, hybrid_encrypt};
pub use types::{
    Encapsulation, PostQuantumSignature, PrivateKey, PublicKey, Signature, SignatureAlgorithm,
};
pub use verification::verify_signature;
pub use zk_integration::{
    prove_identity, prove_range, prove_storage_access, verify_zk_proof, DefaultZkProofSystem,
    Plonky2Proof, ZKProof, ZkProofSystem,
};

verus! {

} // verus!
