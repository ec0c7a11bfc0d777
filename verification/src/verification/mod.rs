//! Signature verification.

pub mod signature_verify;

pub use signature_verify::verify_signature;
