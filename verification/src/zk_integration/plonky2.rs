//! Plonky2 zero-knowledge proof interface.
//!
//! The proof systems themselves live in the separate `zhtp-zk` package; this
//! module defines the interface they implement and a default implementation
//! that answers every request with an error saying where to find them.

use vstd::prelude::*;
use crate::error::{CryptoError, ZkCircuit};
use crate::types::PrivateKey;

verus! {

/// Plonky2 proof structure shared with the proof-system package.
#[derive(Clone, Debug)]
pub struct Plonky2Proof {
    pub proof_data: Vec<u8>,
    pub public_inputs: Vec<u64>,
    pub verification_key: Vec<u8>,
    pub circuit_digest: [u8; 32],
}

/// Another name for [`Plonky2Proof`].
pub type ZKProof = Plonky2Proof;

/// Interface that zero-knowledge proof systems implement.
pub trait ZkProofSystem {
    /// Create a new proof system.
    fn new() -> Result<Self, CryptoError> where Self: Sized;

    /// Prove identity without revealing personal information.
    fn prove_identity(
        &self,
        identity_secret: u64,
        age: u64,
        jurisdiction_hash: u64,
        credential_hash: u64,
        min_age: u64,
        required_jurisdiction: u64,
    ) -> Result<Plonky2Proof, CryptoError>;

    /// Prove a value is within a range without revealing the value.
    fn prove_range(
        &self,
        value: u64,
        blinding_factor: u64,
        min_value: u64,
        max_value: u64,
    ) -> Result<Plonky2Proof, CryptoError>;

    /// Prove storage access rights without revealing the data.
    fn prove_storage_access(
        &self,
        access_key: u64,
        requester_secret: u64,
        data_hash: u64,
        permission_level: u64,
        required_permission: u64,
    ) -> Result<Plonky2Proof, CryptoError>;

    /// Verify an identity proof.
    fn verify_identity(&self, proof: &Plonky2Proof) -> Result<bool, CryptoError>;

    /// Verify a range proof.
    fn verify_range(&self, proof: &Plonky2Proof) -> Result<bool, CryptoError>;

    /// Verify a storage access proof.
    fn verify_storage_access(&self, proof: &Plonky2Proof) -> Result<bool, CryptoError>;
}

/// Default proof system: every proof and verification request fails with a
/// message pointing to the `zhtp-zk` package.
#[derive(Clone, Debug)]
pub struct DefaultZkProofSystem;

impl ZkProofSystem for DefaultZkProofSystem {
    fn new() -> (res: Result<Self, CryptoError>)
        ensures
            res is Ok,
    {
        Ok(DefaultZkProofSystem)
    }

    fn prove_identity(
        &self,
        identity_secret: u64,
        age: u64,
        jurisdiction_hash: u64,
        credential_hash: u64,
        min_age: u64,
        required_jurisdiction: u64,
    ) -> (res: Result<Plonky2Proof, CryptoError>)
        ensures
            res matches Err(e) && e == CryptoError::ZkProofUnavailable(ZkCircuit::Identity),
    {
        Err(CryptoError::ZkProofUnavailable(ZkCircuit::Identity))
    }

    fn prove_range(&self, value: u64, blinding_factor: u64, min_value: u64, max_value: u64) -> (res:
        Result<Plonky2Proof, CryptoError>)
        ensures
            res matches Err(e) && e == CryptoError::ZkProofUnavailable(ZkCircuit::Range),
    {
        Err(CryptoError::ZkProofUnavailable(ZkCircuit::Range))
    }

    fn prove_storage_access(
        &self,
        access_key: u64,
        requester_secret: u64,
        data_hash: u64,
        permission_level: u64,
        required_permission: u64,
    ) -> (res: Result<Plonky2Proof, CryptoError>)
        ensures
            res matches Err(e) && e == CryptoError::ZkProofUnavailable(ZkCircuit::StorageAccess),
    {
        Err(CryptoError::ZkProofUnavailable(ZkCircuit::StorageAccess))
    }

    fn verify_identity(&self, proof: &Plonky2Proof) -> (res: Result<bool, CryptoError>)
        ensures
            res == Err::<bool, CryptoError>(CryptoError::ZkVerificationUnavailable(ZkCircuit::Identity)),
    {
        Err(CryptoError::ZkVerificationUnavailable(ZkCircuit::Identity))
    }

    fn verify_range(&self, proof: &Plonky2Proof) -> (res: Result<bool, CryptoError>)
        ensures
            res == Err::<bool, CryptoError>(CryptoError::ZkVerificationUnavailable(ZkCircuit::Range)),
    {
        Err(CryptoError::ZkVerificationUnavailable(ZkCircuit::Range))
    }

    fn verify_storage_access(&self, proof: &Plonky2Proof) -> (res: Result<bool, CryptoError>)
        ensures
            res == Err::<bool, CryptoError>(
                CryptoError::ZkVerificationUnavailable(ZkCircuit::StorageAccess),
            ),
    {
        Err(CryptoError::ZkVerificationUnavailable(ZkCircuit::StorageAccess))
    }
}

/// Identity proof through the default proof system, which fails.
pub fn prove_identity(
    private_key: &PrivateKey,
    age: u64,
    jurisdiction_hash: u64,
    credential_hash: u64,
    min_age: u64,
    required_jurisdiction: u64,
) -> (res: Result<Plonky2Proof, CryptoError>)
    ensures
        res matches Err(e) && e == CryptoError::ZkProofUnavailable(ZkCircuit::Identity),
{
    let zk_system = DefaultZkProofSystem::new()?;
    zk_system.prove_identity(
        0,
        age,
        jurisdiction_hash,
        credential_hash,
        min_age,
        required_jurisdiction,
    )
}

/// Range proof through the default proof system, which fails.
pub fn prove_range(value: u64, blinding_factor: u64, min_value: u64, max_value: u64) -> (res:
    Result<Plonky2Proof, CryptoError>)
    ensures
        res matches Err(e) && e == CryptoError::ZkProofUnavailable(ZkCircuit::Range),
{
    let zk_system = DefaultZkProofSystem::new()?;
    zk_system.prove_range(value, blinding_factor, min_value, max_value)
}

/// Storage access proof through the default proof system, which fails.
pub fn prove_storage_access(
    access_key: u64,
    requester_secret: u64,
    data_hash: u64,
    permission_level: u64,
    required_permission: u64,
) -> (res: Result<Plonky2Proof, CryptoError>)
    ensures
        res matches Err(e) && e == CryptoError::ZkProofUnavailable(ZkCircuit::StorageAccess),
{
    let zk_system = DefaultZkProofSystem::new()?;
    zk_system.prove_storage_access(
        access_key,
        requester_secret,
        data_hash,
        permission_level,
        required_permission,
    )
}

/// Identity-proof verification through the default proof system, which fails.
pub fn verify_zk_proof(proof: &Plonky2Proof) -> (res: Result<bool, CryptoError>)
    ensures
        res == Err::<bool, CryptoError>(CryptoError::ZkVerificationUnavailable(ZkCircuit::Identity)),
{
    let zk_system = DefaultZkProofSystem::new()?;
    zk_system.verify_identity(proof)
}

} // verus!
