//! Laws that relate the operations of the byte-level surface.
use vstd::prelude::*;
use crate::api::{proof_to_hash_outcome, prove_outcome, verify_outcome};
use crate::backend::is_point_encoding;
use crate::encoding::{
    all_zero, challenge_part, gamma_part, is_canonical_scalar, response_part, CHALLENGE_LEN,
    POINT_LEN, PROOF_LEN, SCALAR_LEN,
};
use crate::keys::{
    private_key_error, proof_error, public_key_error, valid_private_key, valid_public_key,
    VrfError,
};

verus! {

/// Proving is deterministic: two proofs of one message under one private key
/// are the same bytes, and so are two refusals.
pub proof fn lemma_prove_deterministic(
    sk: Seq<u8>,
    msg: Seq<u8>,
    first: Result<Seq<u8>, VrfError>,
    second: Result<Seq<u8>, VrfError>,
)
    requires
        first == prove_outcome(sk, msg),
        second == prove_outcome(sk, msg),
    ensures
        first == second,
{
}

/// Verifying is deterministic: two checks of the same inputs agree.
pub proof fn lemma_verify_deterministic(
    pk: Seq<u8>,
    msg: Seq<u8>,
    proof: Seq<u8>,
    first: Result<bool, VrfError>,
    second: Result<bool, VrfError>,
)
    requires
        first == verify_outcome(pk, msg, proof),
        second == verify_outcome(pk, msg, proof),
    ensures
        first == second,
{
}

/// The output of a proof depends on its gamma alone: two well-formed proofs
/// with the same gamma give the same output, whatever their challenges and
/// responses.
pub proof fn lemma_output_depends_on_gamma_only(p: Seq<u8>, q: Seq<u8>)
    requires
        proof_error(p) is None,
        proof_error(q) is None,
        gamma_part(p) == gamma_part(q),
    ensures
        proof_to_hash_outcome(p) == proof_to_hash_outcome(q),
        proof_to_hash_outcome(p) is Ok,
{
}

/// A valid private key decodes from its own encoding, and a valid public key
/// from its own.
pub proof fn lemma_key_round_trip(sk: Seq<u8>, pk: Seq<u8>)
    requires
        valid_private_key(sk),
        valid_public_key(pk),
    ensures
        private_key_error(sk) is None,
        public_key_error(pk) is None,
{
}

/// A proof assembled from a gamma that is a point other than the identity, a
/// 16-byte challenge and a canonical response decodes, and its fields come
/// back as they went in. So the encoding of proofs is injective.
pub proof fn lemma_proof_round_trip(gamma: Seq<u8>, challenge: Seq<u8>, response: Seq<u8>)
    requires
        gamma.len() == POINT_LEN,
        is_point_encoding(gamma),
        !all_zero(gamma),
        challenge.len() == CHALLENGE_LEN,
        is_canonical_scalar(response),
    ensures
        proof_error(gamma + challenge + response) is None,
        gamma_part(gamma + challenge + response) == gamma,
        challenge_part(gamma + challenge + response) == challenge,
        response_part(gamma + challenge + response) == response,
{
    let b = gamma + challenge + response;
    assert(gamma_part(b) =~= gamma);
    assert(challenge_part(b) =~= challenge);
    assert(response_part(b) =~= response);
}

/// Two valid proof encodings with the same fields are the same bytes.
pub proof fn lemma_proof_fields_determine_encoding(p: Seq<u8>, q: Seq<u8>)
    requires
        proof_error(p) is None,
        proof_error(q) is None,
        gamma_part(p) == gamma_part(q),
        challenge_part(p) == challenge_part(q),
        response_part(p) == response_part(q),
    ensures
        p == q,
{
    assert(p =~= gamma_part(p) + challenge_part(p) + response_part(p));
    assert(q =~= gamma_part(q) + challenge_part(q) + response_part(q));
}

/// Malformed bytes are refused as an invalid encoding: a wrong length, bytes
/// that are not a point, the identity as public key or as gamma, and a
/// response that is not a canonical scalar.
pub proof fn lemma_malformed_input_rejected(b: Seq<u8>)
    ensures
        b.len() != SCALAR_LEN ==> private_key_error(b) == Some(VrfError::InvalidEncoding),
        b.len() != POINT_LEN ==> public_key_error(b) == Some(VrfError::InvalidEncoding),
        b.len() != PROOF_LEN ==> proof_error(b) == Some(VrfError::InvalidEncoding),
        !is_point_encoding(b) ==> public_key_error(b) == Some(VrfError::InvalidEncoding),
        all_zero(b) ==> public_key_error(b) == Some(VrfError::InvalidEncoding),
        b.len() == PROOF_LEN && (!is_point_encoding(gamma_part(b)) || all_zero(gamma_part(b))
            || !is_canonical_scalar(response_part(b))) ==> proof_error(b) == Some(
            VrfError::InvalidEncoding,
        ),
{
}

} // verus!
