//! BLAKE3 hashing.

use vstd::prelude::*;

verus! {

/// The 32-byte BLAKE3 digest of `data`, as computed by the `blake3` crate.
pub uninterp spec fn blake3_digest(data: Seq<u8>) -> Seq<u8>;

/// Fast cryptographic hash using BLAKE3.
///
/// Trusted: calls `blake3::Hasher::{new, update, finalize}` and converts the
/// resulting `blake3::Hash` into its 32 bytes. The contract claims only that
/// the digest is a fixed function of the input bytes, named `blake3_digest`.
#[verifier::external_body]
pub fn hash_blake3(data: &[u8]) -> (digest: [u8; 32])
    ensures
        digest@ == blake3_digest(data@),
{
    let mut hasher = ::blake3::Hasher::new();
    hasher.update(data);
    hasher.finalize().into()
}

} // verus!
