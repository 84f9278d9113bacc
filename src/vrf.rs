//! Prove, verify and output derivation on keys and proofs.
use vstd::prelude::*;
use crate::backend::{hash_proof, output_of, proof_accepted, proof_of, prove_with_pair, verify_with};
use crate::encoding::{all_zero, gamma_part, is_all_zero, slice_prefix, OUTPUT_LEN, POINT_LEN};
use crate::keys::{KeyPair, Proof, PublicKey};

verus! {

/// Proves `msg` under the key pair: the proof is a function of the private key
/// and the message alone.
pub fn prove(kp: &KeyPair, msg: &[u8]) -> (r: Proof)
    ensures
        r@ == proof_of(kp.private_view(), msg@),
{
    let pair = kp.pair_bytes();
    let b = prove_with_pair(pair.as_slice(), msg);
    Proof::from_layout(b.as_slice())
}

/// Checks `proof` for `msg` under `pk`. A proof whose gamma is the identity is
/// refused before any check.
pub fn verify(pk: &PublicKey, msg: &[u8], proof: &Proof) -> (r: bool)
    ensures
        r == (!all_zero(gamma_part(proof@)) && proof_accepted(pk@, msg@, proof@)),
{
    let p = proof.to_bytes();
    let k = pk.to_bytes();
    if is_all_zero(slice_prefix(p.as_slice(), POINT_LEN)) {
        return false;
    }
    verify_with(k.as_slice(), msg, p.as_slice())
}

/// The VRF output of a proof: 64 bytes hashed from its gamma alone. The proof
/// is not checked here.
pub fn proof_to_hash(proof: &Proof) -> (r: Vec<u8>)
    ensures
        r@ == output_of(gamma_part(proof@)),
        r@.len() == OUTPUT_LEN,
{
    let p = proof.to_bytes();
    hash_proof(p.as_slice())
}

} // verus!
