//! Key pairs: generation and the operations a key pair supports.

pub mod operations;

use vstd::prelude::*;
use crate::bytes::copy_bytes;
use crate::classical::{ed25519_public_from_secret, ed25519_public_key};
use crate::error::CryptoError;
use crate::hashing::{blake3_digest, hash_blake3};
use crate::post_quantum::{
    dilithium2_keypair, dilithium2_opened, dilithium2_signed_message, kyber512_encapsulates,
    kyber512_key_pair,
    kyber512_keypair, kyber512_shared_secret,
    DILITHIUM2_PUBLICKEY_BYTES, DILITHIUM2_SECRETKEY_BYTES, KYBER512_PUBLICKEY_BYTES,
    KYBER512_SECRETKEY_BYTES,
};
use crate::random::random_bytes_32;
use crate::types::{PrivateKey, PrivateKeyView, PublicKey, PublicKeyView};

verus! {

/// A public key together with its private key.
#[derive(Debug, Clone)]
pub struct KeyPair {
    pub public_key: PublicKey,
    pub private_key: PrivateKey,
}

/// The mathematical view of a [`KeyPair`].
pub struct KeyPairView {
    pub public_key: PublicKeyView,
    pub private_key: PrivateKeyView,
}

impl View for KeyPair {
    type V = KeyPairView;

    open spec fn view(&self) -> KeyPairView {
        KeyPairView { public_key: self.public_key@, private_key: self.private_key@ }
    }
}

/// Every message that the Dilithium2 secret key `sk` signs opens, under the
/// public key `pk`, to that message.
pub open spec fn dilithium2_pair(pk: Seq<u8>, sk: Seq<u8>) -> bool {
    forall|m: Seq<u8>|
        #![trigger dilithium2_signed_message(sk, m)]
        dilithium2_opened(dilithium2_signed_message(sk, m), pk) == Some(m)
}

/// The Kyber512 secret key `sk` recovers, from the ciphertext `ct`, the
/// secret that `ct` encapsulates to the public key `pk`. For a generated
/// pair (`kyber512_key_pair`), Kyber512 promises this for all but a tiny
/// fraction of ciphertexts, not for every one.
pub open spec fn kyber512_recovers(pk: Seq<u8>, sk: Seq<u8>, ct: Seq<u8>) -> bool {
    forall|ss: Seq<u8>| #[trigger] kyber512_encapsulates(pk, ct, ss) ==> kyber512_shared_secret(ct, sk) == ss
}

/// What every freshly generated key pair satisfies: keys of the right sizes,
/// a Dilithium2 pair, Kyber512 keys from one generated pair, an Ed25519 public key that belongs to the Ed25519
/// secret key, and a key id that is the BLAKE3 digest of the Dilithium key.
pub open spec fn generated_keypair(kp: KeyPairView) -> bool {
    &&& kp.public_key.dilithium_pk.len() == DILITHIUM2_PUBLICKEY_BYTES
    &&& kp.public_key.kyber_pk.len() == KYBER512_PUBLICKEY_BYTES
    &&& kp.private_key.dilithium_sk.len() == DILITHIUM2_SECRETKEY_BYTES
    &&& kp.private_key.kyber_sk.len() == KYBER512_SECRETKEY_BYTES
    &&& kp.private_key.ed25519_sk.len() == 32
    &&& kp.private_key.master_seed.len() == 32
    &&& kp.public_key.ed25519_pk.len() == 32
    &&& kp.public_key.ed25519_pk == ed25519_public_key(kp.private_key.ed25519_sk)
    &&& kp.public_key.key_id == blake3_digest(kp.public_key.dilithium_pk)
    &&& dilithium2_pair(kp.public_key.dilithium_pk, kp.private_key.dilithium_sk)
    &&& kyber512_key_pair(kp.public_key.kyber_pk, kp.private_key.kyber_sk)
}

impl KeyPair {
    /// Generate a fresh key pair: a Dilithium2 signing pair, a Kyber512
    /// encapsulation pair, an Ed25519 pair and a 32-byte master seed, all
    /// from the operating system's randomness.
    pub fn generate() -> (res: Result<KeyPair, CryptoError>)
        ensures
            res matches Ok(kp) && generated_keypair(kp@),
    {
        let (dilithium_pk, dilithium_sk) = dilithium2_keypair();
        let (kyber_pk, kyber_sk) = kyber512_keypair();
        let ed25519_secret = random_bytes_32();
        let ed25519_public = ed25519_public_from_secret(&ed25519_secret);
        let master_seed = random_bytes_32();
        let key_id = hash_blake3(dilithium_pk.as_slice());
        let public_key = PublicKey {
            dilithium_pk,
            kyber_pk,
            ed25519_pk: copy_bytes(&ed25519_public),
            key_id,
        };
        let private_key = PrivateKey {
            dilithium_sk,
            kyber_sk,
            ed25519_sk: copy_bytes(&ed25519_secret),
            master_seed: copy_bytes(&master_seed),
        };
        Ok(KeyPair { public_key, private_key })
    }
}

} // verus!
