//! The byte-level surface: keys, proofs and outputs as plain byte strings.
use vstd::prelude::*;
use crate::backend::{output_of, proof_accepted, proof_of, public_key_of};
use crate::encoding::{gamma_part, OUTPUT_LEN};
use crate::keys::{
    private_key_error, proof_error, proof_layout, public_key_error, valid_private_key,
    valid_public_key, KeyPair, PrivateKey, Proof, PublicKey, VrfError,
};
use crate::vrf::{proof_to_hash, prove, verify};

verus! {

/// What proving `msg` under the encoded private key `sk` gives.
pub open spec fn prove_outcome(sk: Seq<u8>, msg: Seq<u8>) -> Result<Seq<u8>, VrfError> {
    match private_key_error(sk) {
        Some(e) => Err(e),
        None => Ok(proof_of(sk, msg)),
    }
}

/// What checking the encoded `proof` for `msg` under the encoded `pk` gives:
/// an error only for malformed bytes, else whether the proof holds.
pub open spec fn verify_outcome(pk: Seq<u8>, msg: Seq<u8>, proof: Seq<u8>) -> Result<
    bool,
    VrfError,
> {
    match public_key_error(pk) {
        Some(e) => Err(e),
        None => match proof_error(proof) {
            Some(e) => Err(e),
            None => Ok(proof_accepted(pk, msg, proof)),
        },
    }
}

/// What deriving the output of the encoded `proof` gives.
pub open spec fn proof_to_hash_outcome(proof: Seq<u8>) -> Result<Seq<u8>, VrfError> {
    match proof_error(proof) {
        Some(e) => Err(e),
        None => Ok(output_of(gamma_part(proof))),
    }
}

/// An encoded key pair: private key and public key, 32 bytes each.
pub struct WasmECVRFKeypair {
    sk: Vec<u8>,
    pk: Vec<u8>,
}

impl View for WasmECVRFKeypair {
    /// (private key, public key)
    type V = (Seq<u8>, Seq<u8>);

    closed spec fn view(&self) -> (Seq<u8>, Seq<u8>) {
        (self.sk@, self.pk@)
    }
}

impl WasmECVRFKeypair {
    /// Bundles two encodings; nothing is checked.
    pub fn new(sk: Vec<u8>, pk: Vec<u8>) -> (r: WasmECVRFKeypair)
        ensures
            r@ == (sk@, pk@),
    {
        WasmECVRFKeypair { sk, pk }
    }

    /// The private key's encoding.
    pub fn sk(&self) -> (r: Vec<u8>)
        ensures
            r@ == self@.0,
    {
        self.sk.clone()
    }

    /// The public key's encoding.
    pub fn pk(&self) -> (r: Vec<u8>)
        ensures
            r@ == self@.1,
    {
        self.pk.clone()
    }
}

/// Draws a key pair from `rng` and returns both keys encoded; the public key is
/// the private scalar times the generator.
pub fn generate_ecvrf_keypair(rng: &mut rand::rngs::StdRng) -> (r: Result<
    WasmECVRFKeypair,
    VrfError,
>)
    ensures
        match r {
            Ok(k) => {
                &&& valid_private_key(k@.0)
                &&& k@.1 == public_key_of(k@.0)
                &&& valid_public_key(k@.1)
            },
            Err(e) => e == VrfError::Randomness,
        },
{
    let kp = KeyPair::generate(rng)?;
    let sk = kp.private_key().to_bytes();
    let pk = kp.public_key().to_bytes();
    Ok(WasmECVRFKeypair { sk, pk })
}

/// Proves `msg` under the encoded private key and returns the encoded proof.
pub fn ecvrf_prove(sk_bytes: &[u8], msg: &[u8]) -> (r: Result<Vec<u8>, VrfError>)
    ensures
        match r {
            Ok(p) => prove_outcome(sk_bytes@, msg@) == Ok::<Seq<u8>, VrfError>(p@),
            Err(e) => prove_outcome(sk_bytes@, msg@) == Err::<Seq<u8>, VrfError>(e),
        },
{
    let sk = match PrivateKey::from_bytes(sk_bytes) {
        Ok(sk) => sk,
        Err(e) => return Err(e),
    };
    let kp = KeyPair::from_private_key(sk);
    let proof = prove(&kp, msg);
    Ok(proof.to_bytes())
}

/// Checks the encoded proof for `msg` under the encoded public key. Malformed
/// bytes give an error; a well-formed proof that does not hold gives `false`.
pub fn ecvrf_verify(pk_bytes: &[u8], msg: &[u8], proof_bytes: &[u8]) -> (r: Result<
    bool,
    VrfError,
>)
    ensures
        r == verify_outcome(pk_bytes@, msg@, proof_bytes@),
{
    let pk = match PublicKey::from_bytes(pk_bytes) {
        Ok(pk) => pk,
        Err(e) => return Err(e),
    };
    let proof = match Proof::from_bytes(proof_bytes) {
        Ok(p) => p,
        Err(e) => return Err(e),
    };
    Ok(verify(&pk, msg, &proof))
}

/// The 64-byte output of the encoded proof. The proof is not checked.
pub fn ecvrf_proof_to_hash(proof_bytes: &[u8]) -> (r: Result<Vec<u8>, VrfError>)
    ensures
        match r {
            Ok(h) => proof_to_hash_outcome(proof_bytes@) == Ok::<Seq<u8>, VrfError>(h@)
                && h@.len() == OUTPUT_LEN,
            Err(e) => proof_to_hash_outcome(proof_bytes@) == Err::<Seq<u8>, VrfError>(e),
        },
{
    let proof = match Proof::from_bytes(proof_bytes) {
        Ok(p) => p,
        Err(e) => return Err(e),
    };
    Ok(proof_to_hash(&proof))
}

/// Output, encoded proof and encoded public key, as one bundle.
pub struct WasmVRFContractParameters {
    output: Vec<u8>,
    proof: Vec<u8>,
    public_key: Vec<u8>,
}

impl View for WasmVRFContractParameters {
    /// (output, proof, public key)
    type V = (Seq<u8>, Seq<u8>, Seq<u8>);

    closed spec fn view(&self) -> (Seq<u8>, Seq<u8>, Seq<u8>) {
        (self.output@, self.proof@, self.public_key@)
    }
}

impl WasmVRFContractParameters {
    /// The VRF output.
    pub fn output(&self) -> (r: Vec<u8>)
        ensures
            r@ == self@.0,
    {
        self.output.clone()
    }

    /// The encoded proof.
    pub fn proof_bytes(&self) -> (r: Vec<u8>)
        ensures
            r@ == self@.1,
    {
        self.proof.clone()
    }

    /// The encoded public key.
    pub fn public_key(&self) -> (r: Vec<u8>)
        ensures
            r@ == self@.2,
    {
        self.public_key.clone()
    }
}

/// Proves `alpha_string` under the encoded private key and returns the output,
/// the encoded proof and the encoded public key together.
pub fn generate_vrf_params_for_contract(sk_bytes: &[u8], alpha_string: &[u8]) -> (r: Result<
    WasmVRFContractParameters,
    VrfError,
>)
    ensures
        match r {
            Ok(p) => {
                &&& private_key_error(sk_bytes@) is None
                &&& p@.1 == proof_of(sk_bytes@, alpha_string@)
                &&& p@.0 == output_of(gamma_part(p@.1))
                &&& p@.2 == public_key_of(sk_bytes@)
                &&& valid_public_key(p@.2)
                &&& proof_layout(p@.1)
                &&& p@.0.len() == OUTPUT_LEN
            },
            Err(e) => private_key_error(sk_bytes@) == Some(e),
        },
{
    let sk = match PrivateKey::from_bytes(sk_bytes) {
        Ok(sk) => sk,
        Err(e) => return Err(e),
    };
    let kp = KeyPair::from_private_key(sk);
    let proof = prove(&kp, alpha_string);
    let output = proof_to_hash(&proof);
    let public_key = kp.public_key().to_bytes();
    Ok(WasmVRFContractParameters { output, proof: proof.to_bytes(), public_key })
}

} // verus!
