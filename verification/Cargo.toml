[package]
name = "lib-crypto"
version = "0.1.0"
edition = "2021"
publish = false

[dependencies]
anyhow = "1"
blake3 = "1"
sha3 = "0.10"
hkdf = "0.12"
chacha20poly1305 = "0.10"
pqcrypto-dilithium = "0.5"
pqcrypto-kyber = "0.8"
pqcrypto-traits = "0.3"
ed25519-dalek = { version = "2", features = ["rand_core"] }
curve25519-dalek = "4"
rand = "0.8"
serde = { version = "1", features = ["derive"] }
zeroize = { version = "1", features = ["derive"] }
