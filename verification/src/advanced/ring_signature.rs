//! Ring signatures for anonymous signing.
//!
//! A ring signature binds a message, a key image and the Ed25519 keys of all
//! ring members into a BLAKE3 challenge. Each member gets a response: the
//! signer's is derived from its secret key, every other member's from its
//! public key. A signature verifies when the challenge matches and at least
//! one response is not the public-key-derived one.

use vstd::prelude::*;
use crate::bytes::{append_bytes, bytes_eq};
use crate::classical::{curve25519_scalar_mult, x25519_product};
use crate::error::CryptoError;
use crate::hashing::{blake3_digest, hash_blake3};
use crate::types::{PrivateKey, PrivateKeyView, PublicKey, PublicKeyView};

verus! {

/// `ZHTP-RING-SIGNER`
pub const RING_SIGNER_TAG: [u8; 16] = [
    90u8, 72u8, 84u8, 80u8, 45u8, 82u8, 73u8, 78u8, 71u8, 45u8, 83u8, 73u8, 71u8, 78u8, 69u8, 82u8,
];

/// `ZHTP-RING-NONSIGNER`
pub const RING_NONSIGNER_TAG: [u8; 19] = [
    90u8, 72u8, 84u8, 80u8, 45u8, 82u8, 73u8, 78u8, 71u8, 45u8, 78u8, 79u8, 78u8, 83u8, 73u8,
    71u8, 78u8, 69u8, 82u8,
];

/// `ZHTP-COMMITMENT`
pub const RING_COMMITMENT_TAG: [u8; 15] = [
    90u8, 72u8, 84u8, 80u8, 45u8, 67u8, 79u8, 77u8, 77u8, 73u8, 84u8, 77u8, 69u8, 78u8, 84u8,
];

/// `ZHTP-RING-RESPONSE`
pub const RING_RESPONSE_TAG: [u8; 18] = [
    90u8, 72u8, 84u8, 80u8, 45u8, 82u8, 73u8, 78u8, 71u8, 45u8, 82u8, 69u8, 83u8, 80u8, 79u8,
    78u8, 83u8, 69u8,
];

/// Ring signature: challenge, one response per ring member, key image.
#[derive(Clone, Debug)]
pub struct RingSignature {
    /// Challenge hash
    pub c: [u8; 32],
    /// Responses for each ring member
    pub responses: Vec<[u8; 32]>,
    /// Key image for double-spend prevention
    pub key_image: [u8; 32],
}

/// The mathematical view of a [`RingSignature`].
pub struct RingSignatureView {
    pub c: Seq<u8>,
    pub responses: Seq<Seq<u8>>,
    pub key_image: Seq<u8>,
}

impl View for RingSignature {
    type V = RingSignatureView;

    open spec fn view(&self) -> RingSignatureView {
        RingSignatureView {
            c: self.c@,
            responses: self.responses@.map_values(|r: [u8; 32]| r@),
            key_image: self.key_image@,
        }
    }
}

/// Ring signature context: the ring, the message, and the signer once set.
#[derive(Clone, Debug)]
pub struct RingContext {
    pub ring: Vec<PublicKey>,
    pub message: Vec<u8>,
    pub signer_index: Option<usize>,
    pub private_key: Option<PrivateKey>,
}

/// The mathematical view of a [`RingContext`].
pub struct RingContextView {
    pub ring: Seq<PublicKeyView>,
    pub message: Seq<u8>,
    pub signer_index: Option<usize>,
    pub private_key: Option<PrivateKeyView>,
}

/// The views of a sequence of public keys.
pub open spec fn ring_view(ring: Seq<PublicKey>) -> Seq<PublicKeyView> {
    ring.map_values(|pk: PublicKey| pk@)
}

impl View for RingContext {
    type V = RingContextView;

    open spec fn view(&self) -> RingContextView {
        RingContextView {
            ring: ring_view(self.ring@),
            message: self.message@,
            signer_index: self.signer_index,
            private_key: match self.private_key {
                Some(sk) => Some(sk@),
                None => None,
            },
        }
    }
}

/// The Ed25519 keys of the ring members, concatenated in ring order.
pub open spec fn ring_keys(ring: Seq<PublicKeyView>) -> Seq<u8>
    decreases ring.len(),
{
    if ring.len() == 0 {
        Seq::empty()
    } else {
        ring_keys(ring.drop_last()) + ring.last().ed25519_pk
    }
}

/// The challenge of a message, key image and ring.
pub open spec fn ring_challenge(message: Seq<u8>, key_image: Seq<u8>, ring: Seq<PublicKeyView>) -> Seq<u8> {
    blake3_digest(message + key_image + ring_keys(ring))
}

/// The response of a ring member that did not sign, derived from its key.
pub open spec fn nonsigner_response(c: Seq<u8>, member_key: Seq<u8>) -> Seq<u8> {
    blake3_digest(c + member_key + RING_NONSIGNER_TAG@)
}

/// The signer's response, derived from its secret key.
pub open spec fn signer_response(c: Seq<u8>, secret: Seq<u8>) -> Seq<u8> {
    blake3_digest(c + secret + RING_SIGNER_TAG@)
}

/// The simulated commitment of a ring member:
/// `BLAKE3(pubkey || response || "ZHTP-COMMITMENT")`.
pub open spec fn ring_commitment(pubkey: Seq<u8>, response: Seq<u8>) -> Seq<u8> {
    blake3_digest(pubkey + response + RING_COMMITMENT_TAG@)
}

/// The point whose multiple by the Ed25519 secret key is the key image.
pub open spec fn key_image_base() -> Seq<u8> {
    Seq::new(32, |i: int| 9u8)
}

/// Whether [`verify_ring_signature`] accepts `sig` for `message` and `ring`.
pub open spec fn ring_signature_valid(sig: RingSignatureView, message: Seq<u8>, ring: Seq<PublicKeyView>) -> bool {
    &&& sig.responses.len() == ring.len()
    &&& ring_challenge(message, sig.key_image, ring) == sig.c
    &&& exists|i: int|
        0 <= i < ring.len() && #[trigger] sig.responses[i] != nonsigner_response(
            sig.c,
            ring[i].ed25519_pk,
        )
}

/// `sig` is the ring signature that member `signer` of `ctx`'s ring makes
/// with secret key `sk` on `ctx`'s message.
pub open spec fn ring_signature_of(
    ctx: RingContextView,
    signer: usize,
    sk: PrivateKeyView,
    sig: RingSignatureView,
) -> bool {
    &&& sig.key_image == x25519_product(sk.ed25519_sk, key_image_base())
    &&& sig.c == ring_challenge(ctx.message, sig.key_image, ctx.ring)
    &&& sig.responses.len() == ctx.ring.len()
    &&& forall|i: int|
        0 <= i < ctx.ring.len() ==> #[trigger] sig.responses[i] == if i == signer {
            signer_response(sig.c, sk.ed25519_sk)
        } else {
            nonsigner_response(sig.c, ctx.ring[i].ed25519_pk)
        }
}

proof fn lemma_ring_keys_push(ring: Seq<PublicKeyView>, i: int)
    requires
        0 <= i < ring.len(),
    ensures
        ring_keys(ring.subrange(0, i + 1)) == ring_keys(ring.subrange(0, i)) + ring[i].ed25519_pk,
{
    assert(ring.subrange(0, i + 1).drop_last() =~= ring.subrange(0, i));
}

/// `message || key_image || ring member keys`, the input of the challenge.
fn challenge_input(message: &[u8], key_image: &[u8; 32], ring: &[PublicKey]) -> (data: Vec<u8>)
    ensures
        data@ == message@ + key_image@ + ring_keys(ring_view(ring@)),
{
    let mut data: Vec<u8> = Vec::new();
    append_bytes(&mut data, message);
    append_bytes(&mut data, key_image);
    let ghost keys = ring_view(ring@);
    assert(keys.subrange(0, 0) =~= Seq::<PublicKeyView>::empty());
    assert(data@ =~= message@ + key_image@ + ring_keys(keys.subrange(0, 0)));
    let n = ring.len();
    let mut i: usize = 0;
    while i < n
        invariant
            n == ring@.len(),
            keys == ring_view(ring@),
            i <= n,
            data@ == message@ + key_image@ + ring_keys(keys.subrange(0, i as int)),
        decreases n - i,
    {
        proof {
            lemma_ring_keys_push(keys, i as int);
        }
        append_bytes(&mut data, ring[i].ed25519_pk.as_slice());
        i = i + 1;
        assert(data@ =~= message@ + key_image@ + ring_keys(keys.subrange(0, i as int)));
    }
    assert(keys.subrange(0, n as int) =~= keys);
    data
}

/// `BLAKE3(first || second || tag)`.
fn tagged_digest(first: &[u8], second: &[u8], tag: &[u8]) -> (digest: [u8; 32])
    ensures
        digest@ == blake3_digest(first@ + second@ + tag@),
{
    let mut data: Vec<u8> = Vec::new();
    append_bytes(&mut data, first);
    append_bytes(&mut data, second);
    append_bytes(&mut data, tag);
    hash_blake3(data.as_slice())
}

impl RingContext {
    /// A context for `ring` and `message` with no signer set.
    pub fn new(ring: Vec<PublicKey>, message: Vec<u8>) -> (ctx: Self)
        ensures
            ctx@.ring == ring_view(ring@),
            ctx@.message == message@,
            ctx@.signer_index is None,
            ctx@.private_key is None,
    {
        RingContext { ring, message, signer_index: None, private_key: None }
    }

    /// Set the signer: its position in the ring and its private key.
    pub fn set_signer(&mut self, signer_index: usize, private_key: PrivateKey) -> (res: Result<
        (),
        CryptoError,
    >)
        ensures
            signer_index >= old(self)@.ring.len() ==> {
                &&& res == Err::<(), CryptoError>(CryptoError::SignerIndexOutOfBounds)
                &&& final(self)@ == old(self)@
            },
            signer_index < old(self)@.ring.len() ==> {
                &&& res is Ok
                &&& final(self)@ == RingContextView {
                    signer_index: Some(signer_index),
                    private_key: Some(private_key@),
                    ..old(self)@
                }
            },
    {
        if signer_index >= self.ring.len() {
            return Err(CryptoError::SignerIndexOutOfBounds);
        }
        self.signer_index = Some(signer_index);
        self.private_key = Some(private_key);
        Ok(())
    }

    /// Generate a ring signature on the context's message.
    pub fn sign(&self) -> (res: Result<RingSignature, CryptoError>)
        ensures
            self@.signer_index is None ==> (res matches Err(e) && e == CryptoError::NoSignerSet),
            self@.signer_index is Some && self@.private_key is None ==> (res matches Err(e) && e
                == CryptoError::NoPrivateKeySet),
            self@.signer_index is Some && self@.private_key is Some
                && self@.private_key->0.ed25519_sk.len() != 32 ==> (res matches Err(e) && e
                == CryptoError::InvalidCurve25519Scalar),
            self@.signer_index is Some && self@.private_key is Some
                && self@.private_key->0.ed25519_sk.len() == 32 ==> (res matches Ok(sig)
                && ring_signature_of(self@, self@.signer_index->0, self@.private_key->0, sig@)),
            res matches Ok(sig) ==> sig@.c == blake3_digest(
                self@.message + sig@.key_image + ring_keys(self@.ring),
            ),
    {
        let signer_index = match self.signer_index {
            Some(i) => i,
            None => return Err(CryptoError::NoSignerSet),
        };
        let private_key = match &self.private_key {
            Some(sk) => sk,
            None => return Err(CryptoError::NoPrivateKeySet),
        };
        let ring_size = self.ring.len();
        let key_image = self.generate_key_image(private_key)?;
        let challenge_data = challenge_input(self.message.as_slice(), &key_image, self.ring.as_slice());
        let c = hash_blake3(challenge_data.as_slice());
        let ghost ring = self@.ring;
        let mut responses: Vec<[u8; 32]> = Vec::new();
        let mut i: usize = 0;
        while i < ring_size
            invariant
                ring_size == self.ring@.len(),
                ring == ring_view(self.ring@),
                i <= ring_size,
                responses@.len() == i,
                forall|j: int|
                    0 <= j < i ==> #[trigger] responses@[j]@ == if j == signer_index {
                        signer_response(c@, private_key@.ed25519_sk)
                    } else {
                        nonsigner_response(c@, ring[j].ed25519_pk)
                    },
            decreases ring_size - i,
        {
            if i == signer_index {
                responses.push(
                    tagged_digest(&c, private_key.ed25519_sk.as_slice(), &RING_SIGNER_TAG),
                );
            } else {
                responses.push(
                    tagged_digest(&c, self.ring[i].ed25519_pk.as_slice(), &RING_NONSIGNER_TAG),
                );
            }
            i = i + 1;
        }
        let sig = RingSignature { c, responses, key_image };
        assert forall|j: int| 0 <= j < ring.len() implies #[trigger] sig@.responses[j]
            == sig.responses@[j]@ by {}
        Ok(sig)
    }

    /// The key image of a private key: its Ed25519 secret key times the
    /// point whose 32 bytes are all 9, on Curve25519.
    pub fn generate_key_image(&self, private_key: &PrivateKey) -> (res: Result<[u8; 32], CryptoError>)
        ensures
            private_key@.ed25519_sk.len() != 32 ==> res == Err::<[u8; 32], CryptoError>(
                CryptoError::InvalidCurve25519Scalar,
            ),
            private_key@.ed25519_sk.len() == 32 ==> (res matches Ok(image) && image@
                == x25519_product(private_key@.ed25519_sk, key_image_base())),
    {
        let base_point = [9u8; 32];
        assert(base_point@ =~= key_image_base());
        curve25519_scalar_mult(private_key.ed25519_sk.as_slice(), &base_point)
    }

    /// The simulated commitment of a ring member:
    /// `BLAKE3(pubkey || response || "ZHTP-COMMITMENT")`.
    #[allow(dead_code)]
    fn simulate_commitment(&self, pubkey: &[u8], response: &[u8; 32]) -> (res: Result<
        [u8; 32],
        CryptoError,
    >)
        ensures
            res matches Ok(d) && d@ == ring_commitment(pubkey@, response@),
    {
        Ok(tagged_digest(pubkey, response, &RING_COMMITMENT_TAG))
    }

    /// The response of the actual signer:
    /// `BLAKE3(challenge || ed25519 secret || "ZHTP-RING-RESPONSE")`.
    #[allow(dead_code)]
    fn generate_signer_response(&self, challenge: &[u8; 32], private_key: &PrivateKey) -> (res:
        Result<[u8; 32], CryptoError>)
        ensures
            res matches Ok(d) && d@ == blake3_digest(
                challenge@ + private_key@.ed25519_sk + RING_RESPONSE_TAG@,
            ),
    {
        Ok(tagged_digest(challenge, private_key.ed25519_sk.as_slice(), &RING_RESPONSE_TAG))
    }
}

/// Verify a ring signature on `message` for `ring`: the responses match the
/// ring in number, the challenge is recomputed exactly, and at least one
/// response differs from the one derived from its member's public key.
pub fn verify_ring_signature(signature: &RingSignature, message: &[u8], ring: &[PublicKey]) -> (res:
    Result<bool, CryptoError>)
    ensures
        res == Ok::<bool, CryptoError>(ring_signature_valid(signature@, message@, ring_view(ring@))),
        res == Ok::<bool, CryptoError>(true) ==> signature@.c == blake3_digest(
            message@ + signature@.key_image + ring_keys(ring_view(ring@)),
        ),
{
    let ghost keys = ring_view(ring@);
    let ghost sig = signature@;
    if signature.responses.len() != ring.len() {
        return Ok(false);
    }
    let challenge_data = challenge_input(message, &signature.key_image, ring);
    let computed_c = hash_blake3(challenge_data.as_slice());
    if !bytes_eq(&computed_c, &signature.c) {
        return Ok(false);
    }
    let n = ring.len();
    let mut found_valid_signer = false;
    let mut i: usize = 0;
    while i < n
        invariant
            n == ring@.len(),
            n == signature.responses@.len(),
            keys == ring_view(ring@),
            sig == signature@,
            computed_c@ == sig.c,
            i <= n,
            found_valid_signer == exists|j: int|
                0 <= j < i && #[trigger] sig.responses[j] != nonsigner_response(
                    sig.c,
                    keys[j].ed25519_pk,
                ),
        decreases n - i,
    {
        let expected_nonsigner = tagged_digest(
            &computed_c,
            ring[i].ed25519_pk.as_slice(),
            &RING_NONSIGNER_TAG,
        );
        let response = signature.responses[i];
        assert(sig.responses[i as int] == response@);
        if !bytes_eq(&response, &expected_nonsigner) {
            found_valid_signer = true;
        }
        i = i + 1;
    }
    if !found_valid_signer {
        return Ok(false);
    }
    Ok(true)
}

/// The simulated commitment used on the verifying side:
/// `BLAKE3(pubkey || response || "ZHTP-COMMITMENT")`.
#[allow(dead_code)]
fn simulate_commitment_verify(pubkey: &[u8], response: &[u8; 32]) -> (res: Result<[u8; 32], CryptoError>)
    ensures
        res matches Ok(d) && d@ == ring_commitment(pubkey@, response@),
{
    Ok(tagged_digest(pubkey, response, &RING_COMMITMENT_TAG))
}

/// A ring signature made by a ring member verifies for the message it was
/// made on, unless the signer's response happens to equal the response
/// derived from the signer's public key (a BLAKE3 collision).
pub proof fn lemma_ring_signature_verifies(
    ctx: RingContextView,
    signer: usize,
    sk: PrivateKeyView,
    sig: RingSignatureView,
)
    requires
        ring_signature_of(ctx, signer, sk, sig),
        signer < ctx.ring.len(),
        signer_response(sig.c, sk.ed25519_sk) != nonsigner_response(
            sig.c,
            ctx.ring[signer as int].ed25519_pk,
        ),
    ensures
        ring_signature_valid(sig, ctx.message, ctx.ring),
{
    assert(sig.responses[signer as int] != nonsigner_response(
        sig.c,
        ctx.ring[signer as int].ed25519_pk,
    ));
}

/// A ring signature does not verify for another message whose challenge
/// differs from the signature's.
pub proof fn lemma_ring_signature_rejects_other_message(
    ctx: RingContextView,
    signer: usize,
    sk: PrivateKeyView,
    sig: RingSignatureView,
    other: Seq<u8>,
)
    requires
        ring_signature_of(ctx, signer, sk, sig),
        ring_challenge(other, sig.key_image, ctx.ring) != ring_challenge(
            ctx.message,
            sig.key_image,
            ctx.ring,
        ),
    ensures
        !ring_signature_valid(sig, other, ctx.ring),
{
}

/// The two simulated-commitment helpers, `RingContext::simulate_commitment`
/// and `simulate_commitment_verify`, give the same commitment for the same
/// public key and response: any two values with their contract are equal.
pub proof fn lemma_commitments_agree(pubkey: Seq<u8>, response: Seq<u8>, a: [u8; 32], b: [u8; 32])
    requires
        a@ == ring_commitment(pubkey, response),
        b@ == ring_commitment(pubkey, response),
    ensures
        a == b,
{
    assert(a =~= b);
}

/// A ring signature that verifies carries as its challenge the BLAKE3
/// digest of the message, its own key image and the ring members' keys.
pub proof fn lemma_valid_ring_signature_binds_challenge(
    sig: RingSignatureView,
    message: Seq<u8>,
    ring: Seq<PublicKeyView>,
)
    ensures
        ring_signature_valid(sig, message, ring) ==> sig.c == blake3_digest(
            message + sig.key_image + ring_keys(ring),
        ),
{
}

/// A ring signature made by a ring member has as its challenge the BLAKE3
/// digest of the message, its key image and the ring members' keys.
pub proof fn lemma_ring_signature_challenge(
    ctx: RingContextView,
    signer: usize,
    sk: PrivateKeyView,
    sig: RingSignatureView,
)
    requires
        ring_signature_of(ctx, signer, sk, sig),
    ensures
        sig.c == blake3_digest(ctx.message + sig.key_image + ring_keys(ctx.ring)),
        sig.key_image == x25519_product(sk.ed25519_sk, key_image_base()),
{
}

/// Replacing the key image of a ring signature with another one, for which
/// the digest of message, key image and ring keys is not the signature's
/// challenge, makes the signature fail verification.
pub proof fn lemma_ring_signature_rejects_other_key_image(
    sig: RingSignatureView,
    message: Seq<u8>,
    ring: Seq<PublicKeyView>,
    other_image: Seq<u8>,
)
    requires
        blake3_digest(message + other_image + ring_keys(ring)) != sig.c,
    ensures
        !ring_signature_valid(
            RingSignatureView { key_image: other_image, ..sig },
            message,
            ring,
        ),
{
    lemma_valid_ring_signature_binds_challenge(
        RingSignatureView { key_image: other_image, ..sig },
        message,
        ring,
    );
}

} // verus!
