//! Zero-knowledge proof integration.

pub mod plonky2;

pub use plonky2::{
    prove_identity, prove_range, prove_storage_access, verify_zk_proof, DefaultZkProofSystem,
    Plonky2Proof, ZKProof, ZkProofSystem,
};
