//! The library's error type.
//!
//! Every fallible operation returns `Result<_, CryptoError>`; each variant has
//! a fixed human-readable message, returned by [`CryptoError::message`].

use vstd::prelude::*;

verus! {

/// The zero-knowledge circuits that the proof-system interface knows about.
#[derive(Debug, Clone, Copy, PartialEq, Eq, Structural)]
pub enum ZkCircuit {
    Identity,
    Range,
    StorageAccess,
}

/// Errors raised by the cryptographic operations of this library.
#[derive(Debug, Clone, Copy, PartialEq, Eq, Structural)]
pub enum CryptoError {
    InvalidDilithiumSecretKey,
    InvalidDilithiumPublicKey,
    InvalidDilithium5PublicKey,
    InvalidEd25519SecretKey,
    InvalidKyberPublicKey,
    InvalidKyberSecretKey,
    InvalidKyberCiphertext,
    InvalidCurve25519Scalar,
    HkdfExpansionFailed,
    EncryptionFailed,
    DecryptionFailed,
    CiphertextTooShort,
    DecryptedDataTooShort,
    AssociatedDataMismatch,
    EncryptedDataTooShort,
    HybridKemUnavailable,
    MissingDilithiumPublicKey,
    SignerIndexOutOfBounds,
    NoSignerSet,
    NoPrivateKeySet,
    /// Proof generation needs an external proof system.
    ZkProofUnavailable(ZkCircuit),
    /// Proof verification needs an external proof system.
    ZkVerificationUnavailable(ZkCircuit),
}

impl CryptoError {
    /// The message of each error.
    pub open spec fn message_text(self) -> Seq<char> {
        match self {
            CryptoError::InvalidDilithiumSecretKey => "Invalid Dilithium secret key"@,
            CryptoError::InvalidDilithiumPublicKey => "Invalid Dilithium public key"@,
            CryptoError::InvalidDilithium5PublicKey => "Invalid Dilithium5 public key"@,
            CryptoError::InvalidEd25519SecretKey => "Invalid Ed25519 secret key length"@,
            CryptoError::InvalidKyberPublicKey => "Invalid Kyber public key"@,
            CryptoError::InvalidKyberSecretKey => "Invalid Kyber secret key"@,
            CryptoError::InvalidKyberCiphertext => "Invalid Kyber ciphertext"@,
            CryptoError::InvalidCurve25519Scalar => "Invalid Curve25519 scalar length"@,
            CryptoError::HkdfExpansionFailed => "HKDF expansion failed"@,
            CryptoError::EncryptionFailed => "Encryption failed"@,
            CryptoError::DecryptionFailed => "Decryption failed"@,
            CryptoError::CiphertextTooShort => "Ciphertext too short"@,
            CryptoError::DecryptedDataTooShort => "Decrypted data too short"@,
            CryptoError::AssociatedDataMismatch => "Associated data mismatch"@,
            CryptoError::EncryptedDataTooShort => "Encrypted data too short"@,
            CryptoError::HybridKemUnavailable => "Hybrid decryption requires proper KEM implementation"@,
            CryptoError::MissingDilithiumPublicKey => "No Dilithium public key available for pure PQC verification"@,
            CryptoError::SignerIndexOutOfBounds => "Signer index out of bounds"@,
            CryptoError::NoSignerSet => "No signer set"@,
            CryptoError::NoPrivateKeySet => "No private key set"@,
            CryptoError::ZkProofUnavailable(ZkCircuit::Range) => "ZK proof functionality requires the lib-proofs package (zhtp-zk). Add zhtp-zk = { path = \"../zhtp-zk\" } to your Cargo.toml and use zhtp_zk::range::BulletproofRangeProof instead."@,
            CryptoError::ZkProofUnavailable(_) => "ZK proof functionality requires the lib-proofs package (zhtp-zk). Add zhtp-zk = { path = \"../zhtp-zk\" } to your Cargo.toml and use zhtp_zk::plonky2::ZkProofSystem instead."@,
            CryptoError::ZkVerificationUnavailable(ZkCircuit::Identity) => "ZK verification requires the lib-proofs package (zhtp-zk). Use zhtp_zk::verifiers::identity_verifier instead."@,
            CryptoError::ZkVerificationUnavailable(ZkCircuit::Range) => "ZK verification requires the lib-proofs package (zhtp-zk). Use zhtp_zk::verifiers::range_verifier instead."@,
            CryptoError::ZkVerificationUnavailable(ZkCircuit::StorageAccess) => "ZK verification requires the lib-proofs package (zhtp-zk). Use zhtp_zk::verifiers instead."@,
        }
    }

    /// The human-readable message of this error.
    pub fn message(&self) -> (text: String)
        ensures
            text@ == self.message_text(),
    {
        match self {
            CryptoError::InvalidDilithiumSecretKey => "Invalid Dilithium secret key".to_owned(),
            CryptoError::InvalidDilithiumPublicKey => "Invalid Dilithium public key".to_owned(),
            CryptoError::InvalidDilithium5PublicKey => "Invalid Dilithium5 public key".to_owned(),
            CryptoError::InvalidEd25519SecretKey => "Invalid Ed25519 secret key length".to_owned(),
            CryptoError::InvalidKyberPublicKey => "Invalid Kyber public key".to_owned(),
            CryptoError::InvalidKyberSecretKey => "Invalid Kyber secret key".to_owned(),
            CryptoError::InvalidKyberCiphertext => "Invalid Kyber ciphertext".to_owned(),
            CryptoError::InvalidCurve25519Scalar => "Invalid Curve25519 scalar length".to_owned(),
            CryptoError::HkdfExpansionFailed => "HKDF expansion failed".to_owned(),
            CryptoError::EncryptionFailed => "Encryption failed".to_owned(),
            CryptoError::DecryptionFailed => "Decryption failed".to_owned(),
            CryptoError::CiphertextTooShort => "Ciphertext too short".to_owned(),
            CryptoError::DecryptedDataTooShort => "Decrypted data too short".to_owned(),
            CryptoError::AssociatedDataMismatch => "Associated data mismatch".to_owned(),
            CryptoError::EncryptedDataTooShort => "Encrypted data too short".to_owned(),
            CryptoError::HybridKemUnavailable => "Hybrid decryption requires proper KEM implementation".to_owned(),
            CryptoError::MissingDilithiumPublicKey => "No Dilithium public key available for pure PQC verification".to_owned(),
            CryptoError::SignerIndexOutOfBounds => "Signer index out of bounds".to_owned(),
            CryptoError::NoSignerSet => "No signer set".to_owned(),
            CryptoError::NoPrivateKeySet => "No private key set".to_owned(),
            CryptoError::ZkProofUnavailable(ZkCircuit::Range) => "ZK proof functionality requires the lib-proofs package (zhtp-zk). Add zhtp-zk = { path = \"../zhtp-zk\" } to your Cargo.toml and use zhtp_zk::range::BulletproofRangeProof instead.".to_owned(),
            CryptoError::ZkProofUnavailable(_) => "ZK proof functionality requires the lib-proofs package (zhtp-zk). Add zhtp-zk = { path = \"../zhtp-zk\" } to your Cargo.toml and use zhtp_zk::plonky2::ZkProofSystem instead.".to_owned(),
            CryptoError::ZkVerificationUnavailable(ZkCircuit::Identity) => "ZK verification requires the lib-proofs package (zhtp-zk). Use zhtp_zk::verifiers::identity_verifier instead.".to_owned(),
            CryptoError::ZkVerificationUnavailable(ZkCircuit::Range) => "ZK verification requires the lib-proofs package (zhtp-zk). Use zhtp_zk::verifiers::range_verifier instead.".to_owned(),
            CryptoError::ZkVerificationUnavailable(ZkCircuit::StorageAccess) => "ZK verification requires the lib-proofs package (zhtp-zk). Use zhtp_zk::verifiers instead.".to_owned(),
        }
    }
}

} // verus!
