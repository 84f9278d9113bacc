//! The calls into fastcrypto's ECVRF over ristretto255.
//!
//! Keys and proofs cross this boundary in their bincode layouts, which are the
//! fixed-length layouts of `encoding`: a scalar or a point is its 32 bytes, and
//! a proof is gamma, challenge and response one after the other.
use vstd::prelude::*;
use fastcrypto::vrf::ecvrf::{ECVRFKeyPair, ECVRFPrivateKey, ECVRFProof, ECVRFPublicKey};
use fastcrypto::vrf::{VRFKeyPair, VRFProof};
use crate::encoding::{
    all_zero, is_canonical_scalar, le_value, group_order, gamma_part, response_part,
    POINT_LEN, PROOF_LEN, SCALAR_LEN, OUTPUT_LEN,
};

verus! {

#[verifier::external_type_specification]
#[verifier::external_body]
pub struct ExStdRng(rand::rngs::StdRng);

/// `b` is the compressed encoding of a ristretto255 group element.
pub uninterp spec fn is_point_encoding(b: Seq<u8>) -> bool;

/// The encoding of `sk` times the group's generator, for an encoded scalar `sk`.
pub uninterp spec fn public_key_of(sk: Seq<u8>) -> Seq<u8>;

/// The encoded ECVRF proof that the private scalar `sk` gives for `msg`.
pub uninterp spec fn proof_of(sk: Seq<u8>, msg: Seq<u8>) -> Seq<u8>;

/// The ECVRF check of the encoded proof `proof` for `msg` under the encoded public key `pk`.
pub uninterp spec fn proof_accepted(pk: Seq<u8>, msg: Seq<u8>, proof: Seq<u8>) -> bool;

/// The VRF output hashed from the encoded gamma of a proof.
pub uninterp spec fn output_of(gamma: Seq<u8>) -> Seq<u8>;

/// Relies on bincode::deserialize of an `ECVRFPrivateKey`, which reads 32 bytes and
/// accepts exactly the canonical scalars (curve25519-dalek's `Scalar::from_canonical_bytes`).
#[verifier::external_body]
pub(crate) fn decodes_as_scalar(b: &[u8]) -> (r: bool)
    requires
        b@.len() == SCALAR_LEN,
    ensures
        r == (le_value(b@) < group_order()),
{
    bincode::deserialize::<ECVRFPrivateKey>(b).is_ok()
}

/// Relies on bincode::deserialize of an `ECVRFPublicKey`, which reads 32 bytes and
/// accepts exactly the encodings of ristretto255 points (the identity's is all zero).
#[verifier::external_body]
pub(crate) fn decodes_as_point(b: &[u8]) -> (r: bool)
    requires
        b@.len() == POINT_LEN,
    ensures
        r == is_point_encoding(b@),
        all_zero(b@) ==> r,
{
    bincode::deserialize::<ECVRFPublicKey>(b).is_ok()
}

/// Relies on `ECVRFKeyPair::from(ECVRFPrivateKey)`, which sets the public key to
/// the scalar times the generator; its compressed encoding decodes again. The
/// group has prime order, so a nonzero scalar does not give the identity.
#[verifier::external_body]
pub(crate) fn derive_public_key(sk: &[u8]) -> (r: Vec<u8>)
    requires
        is_canonical_scalar(sk@),
        le_value(sk@) != 0,
    ensures
        r@ == public_key_of(sk@),
        r@.len() == POINT_LEN,
        is_point_encoding(r@),
        !all_zero(r@),
{
    let sk: ECVRFPrivateKey = bincode::deserialize(sk).unwrap();
    bincode::serialize(&ECVRFKeyPair::from(sk).pk).unwrap()
}

/// Relies on `ECVRFKeyPair::prove`, which is deterministic in the key pair and the
/// message; `pair` is the key pair's layout, public key then private key. The proof's
/// gamma is a compressed point and its response a canonical scalar.
#[verifier::external_body]
pub(crate) fn prove_with_pair(pair: &[u8], msg: &[u8]) -> (r: Vec<u8>)
    requires
        pair@.len() == POINT_LEN + SCALAR_LEN,
        is_canonical_scalar(pair@.subrange(32, 64)),
        pair@.subrange(0, 32) == public_key_of(pair@.subrange(32, 64)),
    ensures
        r@ == proof_of(pair@.subrange(32, 64), msg@),
        r@.len() == PROOF_LEN,
        is_point_encoding(gamma_part(r@)),
        is_canonical_scalar(response_part(r@)),
{
    let kp: ECVRFKeyPair = bincode::deserialize(pair).unwrap();
    bincode::serialize(&kp.prove(msg)).unwrap()
}

/// Relies on `ECVRFProof::verify`, which is deterministic and fails at once on
/// the identity as public key.
#[verifier::external_body]
pub(crate) fn verify_with(pk: &[u8], msg: &[u8], proof: &[u8]) -> (r: bool)
    requires
        pk@.len() == POINT_LEN,
        is_point_encoding(pk@),
        proof@.len() == PROOF_LEN,
        is_point_encoding(gamma_part(proof@)),
        is_canonical_scalar(response_part(proof@)),
    ensures
        r == proof_accepted(pk@, msg@, proof@),
        all_zero(pk@) ==> !r,
{
    let pk: ECVRFPublicKey = bincode::deserialize(pk).unwrap();
    let proof: ECVRFProof = bincode::deserialize(proof).unwrap();
    proof.verify(msg, &pk).is_ok()
}

/// Relies on `ECVRFProof::to_hash`, a SHA-512 hash over the proof's gamma alone.
#[verifier::external_body]
pub(crate) fn hash_proof(proof: &[u8]) -> (r: Vec<u8>)
    requires
        proof@.len() == PROOF_LEN,
        is_point_encoding(gamma_part(proof@)),
        is_canonical_scalar(response_part(proof@)),
    ensures
        r@ == output_of(gamma_part(proof@)),
        r@.len() == OUTPUT_LEN,
{
    let proof: ECVRFProof = bincode::deserialize(proof).unwrap();
    proof.to_hash().to_vec()
}

/// Relies on `ECVRFKeyPair::generate`, which draws the private scalar from `rng`;
/// it comes out in its canonical encoding.
#[verifier::external_body]
pub(crate) fn draw_private_key(rng: &mut rand::rngs::StdRng) -> (r: Vec<u8>)
    ensures
        is_canonical_scalar(r@),
{
    bincode::serialize(&ECVRFKeyPair::generate(rng).sk).unwrap()
}

} // verus!
