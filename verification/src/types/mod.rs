//! Core cryptographic type definitions.

pub mod encapsulation;
pub mod keys;
pub mod signatures;

pub use encapsulation::{Encapsulation, EncapsulationView};
pub use keys::{PrivateKey, PrivateKeyView, PublicKey, PublicKeyView};
pub use signatures::{PostQuantumSignature, Signature, SignatureAlgorithm, SignatureView};
