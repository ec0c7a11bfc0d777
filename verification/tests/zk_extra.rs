use lib_crypto::zk_integration::plonky2::{verify_zk_proof, DefaultZkProofSystem, Plonky2Proof, ZkProofSystem};
use lib_crypto::{CryptoError, ZkCircuit};

fn empty_proof() -> Plonky2Proof {
    Plonky2Proof {
        proof_data: vec![],
        public_inputs: vec![],
        verification_key: vec![],
        circuit_digest: [0u8; 32],
    }
}

#[test]
fn verification_requests_fail_helpfully() {
    let p = empty_proof();
    let identity = verify_zk_proof(&p).unwrap_err();
    assert_eq!(identity, CryptoError::ZkVerificationUnavailable(ZkCircuit::Identity));
    assert!(identity.message().contains("identity_verifier"));
    let system = DefaultZkProofSystem::new().unwrap();
    let range = system.verify_range(&p).unwrap_err();
    assert!(range.message().contains("range_verifier"));
    let storage = system.verify_storage_access(&p).unwrap_err();
    assert_eq!(
        storage.message(),
        "ZK verification requires the lib-proofs package (zhtp-zk). Use zhtp_zk::verifiers instead.".to_string()
    );
    assert_eq!(system.verify_identity(&p), Err(CryptoError::ZkVerificationUnavailable(ZkCircuit::Identity)));
}

#[test]
fn proof_request_message_names_the_package() {
    let system = DefaultZkProofSystem::new().unwrap();
    let e = system.prove_identity(1, 2, 3, 4, 5, 6).unwrap_err();
    assert_eq!(
        e.message(),
        "ZK proof functionality requires the lib-proofs package (zhtp-zk). Add zhtp-zk = { path = \"../zhtp-zk\" } to your Cargo.toml and use zhtp_zk::plonky2::ZkProofSystem instead.".to_string()
    );
}
