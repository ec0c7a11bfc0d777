//! Symmetric encryption with ChaCha20-Poly1305 and the hybrid schemes built
//! on it.

pub mod chacha20;


pub use chacha20::{decrypt_data, encrypt_data};

pub mod hybrid;

pub use hybrid::{decrypt_with_keypair, encrypt_with_encapsulation, hybrid_decrypt, hybrid_encrypt};
