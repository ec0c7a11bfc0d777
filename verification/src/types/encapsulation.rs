//! Key encapsulation results.

use vstd::prelude::*;

verus! {

/// The result of a key encapsulation: the KEM ciphertext to send, the
/// derived 32-byte symmetric key, and the KDF info string it was derived with.
#[derive(Debug, Clone)]
pub struct Encapsulation {
    /// Kyber512 ciphertext
    pub ciphertext: Vec<u8>,
    /// Symmetric key derived from the KEM shared secret
    pub shared_secret: [u8; 32],
    /// HKDF info string used for the derivation
    pub kdf_info: Vec<u8>,
}

/// The mathematical view of an [`Encapsulation`].
pub struct EncapsulationView {
    pub ciphertext: Seq<u8>,
    pub shared_secret: Seq<u8>,
    pub kdf_info: Seq<u8>,
}

impl View for Encapsulation {
    type V = EncapsulationView;

    open spec fn view(&self) -> EncapsulationView {
        EncapsulationView {
            ciphertext: self.ciphertext@,
            shared_secret: self.shared_secret@,
            kdf_info: self.kdf_info@,
        }
    }
}

} // verus!
