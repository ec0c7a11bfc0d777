//! Advanced signature schemes.

pub mod ring_signature;

pub use ring_signature::{verify_ring_signature, RingContext, RingSignature};
