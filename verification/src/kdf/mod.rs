//! Key derivation with HKDF over SHA3-256.

use vstd::prelude::*;
use hkdf::Hkdf;
use sha3::Sha3_256;

verus! {

/// The 32 bytes of output key material that HKDF-SHA3-256 (no salt) derives
/// from input key material `ikm` and info string `info`.
pub uninterp spec fn hkdf_sha3_256(ikm: Seq<u8>, info: Seq<u8>) -> Seq<u8>;

/// Trusted: `hkdf::Hkdf::<sha3::Sha3_256>::new(None, ikm)` followed by
/// `expand(info, ..)` into 32 bytes. `expand` fails only when more than
/// 255 hash lengths (255 * 32 bytes) are asked for, so for 32 bytes it
/// always succeeds.
#[verifier::external_body]
pub(crate) fn hkdf_sha3_expand_32(ikm: &[u8], info: &[u8]) -> (okm: Option<[u8; 32]>)
    ensures
        okm is Some,
        okm matches Some(k) ==> k@ == hkdf_sha3_256(ikm@, info@),
{
    let hk = Hkdf::<Sha3_256>::new(None, ikm);
    let mut okm = [0u8; 32];
    match hk.expand(info, &mut okm) {
        Ok(()) => Some(okm),
        Err(_) => None,
    }
}

} // verus!
