use lib_crypto::zk_integration::plonky2::{
    prove_identity, prove_range, prove_storage_access, DefaultZkProofSystem, Plonky2Proof,
    ZkProofSystem,
};
use lib_crypto::PrivateKey;

#[test]
fn test_default_zk_system_creation() {
    let result = DefaultZkProofSystem::new();
    assert!(result.is_ok());
}

#[test]
fn test_default_implementations_provide_helpful_errors() {
    let zk_system = DefaultZkProofSystem::new().unwrap();

    let identity_result = zk_system.prove_identity(12345, 25, 840, 9999, 18, 840);
    assert!(identity_result.is_err());
    assert!(identity_result.unwrap_err().message().contains("zhtp-zk"));

    let range_result = zk_system.prove_range(500, 123456, 0, 1000);
    assert!(range_result.is_err());
    assert!(range_result.unwrap_err().message().contains("zhtp-zk"));

    let storage_result = zk_system.prove_storage_access(11111, 22222, 33333, 5, 3);
    assert!(storage_result.is_err());
    assert!(storage_result.unwrap_err().message().contains("zhtp-zk"));
}

#[test]
fn test_convenience_functions_provide_helpful_errors() {
    let private_key = PrivateKey {
        dilithium_sk: vec![1, 2, 3, 4, 5, 6, 7, 8],
        kyber_sk: vec![],
        ed25519_sk: vec![],
        master_seed: vec![],
    };

    let identity_result = prove_identity(&private_key, 25, 840, 9999, 18, 840);
    assert!(identity_result.is_err());
    assert!(identity_result.unwrap_err().message().contains("zhtp-zk"));

    let range_result = prove_range(500, 123456, 0, 1000);
    assert!(range_result.is_err());
    assert!(range_result.unwrap_err().message().contains("zhtp-zk"));

    let storage_result = prove_storage_access(11111, 22222, 33333, 5, 3);
    assert!(storage_result.is_err());
    assert!(storage_result.unwrap_err().message().contains("zhtp-zk"));
}

#[test]
fn test_proof_structure() {
    let proof = Plonky2Proof {
        proof_data: vec![1, 2, 3, 4],
        public_inputs: vec![100, 200],
        verification_key: vec![5, 6, 7, 8],
        circuit_digest: [42u8; 32],
    };

    assert_eq!(proof.proof_data.len(), 4);
    assert_eq!(proof.public_inputs.len(), 2);
    assert_eq!(proof.verification_key.len(), 4);
    assert_eq!(proof.circuit_digest[0], 42);
}
