//! Hashing algorithms.

pub mod blake3;

pub use self::blake3::{blake3_digest, hash_blake3};
