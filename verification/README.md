# lib-crypto

Post-quantum cryptography building blocks with machine-checked contracts:
CRYSTALS-Dilithium signatures, CRYSTALS-Kyber key encapsulation,
ChaCha20-Poly1305 hybrid encryption, BLAKE3 hashing, Ed25519 compatibility,
ring signatures, and the interface to zero-knowledge proof systems.

## Layout

- `src/` — the library, written in Verus. Each public function states its
  result in `ensures`; the round-trip properties (decryption inverts
  encryption for a generated key pair whenever Kyber512 decapsulation
  recovers the encapsulated secret, a key pair's signatures verify, ring
  signatures verify for their message and ring) are proof functions named
  `lemma_*` next to the code they speak of. The cryptographic primitives themselves come from
  `pqcrypto-dilithium`, `pqcrypto-kyber`, `chacha20poly1305`, `hkdf`/`sha3`,
  `blake3`, `ed25519-dalek` and `curve25519-dalek`, called through small
  wrappers marked `#[verifier::external_body]` whose doc comments say what is
  assumed of each.
- `tests/` — integration tests.
- `app/` — plain Rust around the library: `serde`-serializable and zeroizing
  copies of the data types, and an error type usable with `anyhow`.
