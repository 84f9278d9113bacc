//! Private keys, public keys, key pairs and proofs, held in their byte layouts.
use vstd::prelude::*;
use crate::backend::{
    decodes_as_point, decodes_as_scalar, derive_public_key, draw_private_key, is_point_encoding,
    public_key_of,
};
use vstd::slice::{slice_subrange, slice_to_vec};
use crate::encoding::{
    all_zero, gamma_part, is_all_zero, is_canonical_scalar, le_value,
    lemma_le_value_zero, response_part, CHALLENGE_LEN, POINT_LEN, PROOF_LEN, SCALAR_LEN,
};

verus! {

/// Why bytes or a random draw did not give a key or a proof.
#[derive(Clone, Copy, Debug, PartialEq, Eq, Structural)]
pub enum VrfError {
    /// Wrong length, or bytes that do not decode to a valid scalar or point
    /// (the identity included, where it is not allowed).
    InvalidEncoding,
    /// A well-formed scalar outside the range of private keys: zero.
    InvalidKey,
    /// The randomness source gave no usable private key.
    Randomness,
}

/// `b` encodes a private key: a canonical, nonzero scalar.
pub open spec fn valid_private_key(b: Seq<u8>) -> bool {
    is_canonical_scalar(b) && le_value(b) != 0
}

/// `b` encodes a public key: a group element other than the identity.
pub open spec fn valid_public_key(b: Seq<u8>) -> bool {
    b.len() == POINT_LEN && is_point_encoding(b) && !all_zero(b)
}

/// `b` has the shape of an encoded proof: a point as gamma and a canonical
/// scalar as response.
pub open spec fn proof_layout(b: Seq<u8>) -> bool {
    b.len() == PROOF_LEN && is_point_encoding(gamma_part(b)) && is_canonical_scalar(
        response_part(b),
    )
}

/// `b` encodes a proof: its layout holds and gamma is not the identity.
pub open spec fn valid_proof(b: Seq<u8>) -> bool {
    proof_layout(b) && !all_zero(gamma_part(b))
}

/// The error that decoding `b` as a private key gives, if any.
pub open spec fn private_key_error(b: Seq<u8>) -> Option<VrfError> {
    if !is_canonical_scalar(b) {
        Some(VrfError::InvalidEncoding)
    } else if le_value(b) == 0 {
        Some(VrfError::InvalidKey)
    } else {
        None
    }
}

/// The error that decoding `b` as a public key gives, if any.
pub open spec fn public_key_error(b: Seq<u8>) -> Option<VrfError> {
    if valid_public_key(b) {
        None
    } else {
        Some(VrfError::InvalidEncoding)
    }
}

/// The error that decoding `b` as a proof gives, if any.
pub open spec fn proof_error(b: Seq<u8>) -> Option<VrfError> {
    if valid_proof(b) {
        None
    } else {
        Some(VrfError::InvalidEncoding)
    }
}

/// The concatenation of `a` and `b`.
fn concat(a: &[u8], b: &[u8]) -> (r: Vec<u8>)
    ensures
        r@ == a@ + b@,
{
    let mut out = slice_to_vec(a);
    let mut tail = slice_to_vec(b);
    out.append(&mut tail);
    out
}

/// A private key: a nonzero scalar modulo the group order, in its 32-byte encoding.
pub struct PrivateKey {
    bytes: Vec<u8>,
}

impl View for PrivateKey {
    type V = Seq<u8>;

    closed spec fn view(&self) -> Seq<u8> {
        self.bytes@
    }
}

impl PrivateKey {
    #[verifier::type_invariant]
    spec fn inv(self) -> bool {
        valid_private_key(self.bytes@)
    }

    /// Decodes a private key from exactly 32 bytes.
    pub fn from_bytes(b: &[u8]) -> (r: Result<PrivateKey, VrfError>)
        ensures
            match r {
                Ok(k) => private_key_error(b@) is None && k@ == b@,
                Err(e) => private_key_error(b@) == Some(e),
            },
    {
        if b.len() != SCALAR_LEN {
            return Err(VrfError::InvalidEncoding);
        }
        if !decodes_as_scalar(b) {
            return Err(VrfError::InvalidEncoding);
        }
        proof {
            lemma_le_value_zero(b@);
        }
        if is_all_zero(b) {
            return Err(VrfError::InvalidKey);
        }
        Ok(PrivateKey { bytes: slice_to_vec(b) })
    }

    /// The 32-byte encoding of the key.
    pub fn to_bytes(&self) -> (r: Vec<u8>)
        ensures
            r@ == self@,
            valid_private_key(r@),
    {
        proof {
            use_type_invariant(self);
        }
        self.bytes.clone()
    }

    /// The public key that belongs to this private key: the scalar times the generator.
    pub fn public_key(&self) -> (r: PublicKey)
        ensures
            r@ == public_key_of(self@),
    {
        proof {
            use_type_invariant(self);
        }
        PublicKey { bytes: derive_public_key(self.bytes.as_slice()) }
    }
}

/// A public key: a group element other than the identity, in its 32-byte encoding.
pub struct PublicKey {
    bytes: Vec<u8>,
}

impl View for PublicKey {
    type V = Seq<u8>;

    closed spec fn view(&self) -> Seq<u8> {
        self.bytes@
    }
}

impl PublicKey {
    #[verifier::type_invariant]
    spec fn inv(self) -> bool {
        valid_public_key(self.bytes@)
    }

    /// Decodes a public key from exactly 32 bytes; the identity is refused.
    pub fn from_bytes(b: &[u8]) -> (r: Result<PublicKey, VrfError>)
        ensures
            match r {
                Ok(k) => public_key_error(b@) is None && k@ == b@,
                Err(e) => public_key_error(b@) == Some(e),
            },
    {
        if b.len() != POINT_LEN {
            return Err(VrfError::InvalidEncoding);
        }
        if !decodes_as_point(b) || is_all_zero(b) {
            return Err(VrfError::InvalidEncoding);
        }
        Ok(PublicKey { bytes: slice_to_vec(b) })
    }

    /// The 32-byte encoding of the key.
    pub fn to_bytes(&self) -> (r: Vec<u8>)
        ensures
            r@ == self@,
            valid_public_key(r@),
    {
        proof {
            use_type_invariant(self);
        }
        self.bytes.clone()
    }
}

/// A key pair: a private key and the public key derived from it.
pub struct KeyPair {
    sk: PrivateKey,
    pk: PublicKey,
}

impl KeyPair {
    #[verifier::type_invariant]
    spec fn inv(self) -> bool {
        self.pk@ == public_key_of(self.sk@)
    }

    /// The private half.
    pub closed spec fn private_view(&self) -> Seq<u8> {
        self.sk@
    }

    /// The public half.
    pub closed spec fn public_view(&self) -> Seq<u8> {
        self.pk@
    }

    /// Rebuilds the whole key pair from its private key.
    pub fn from_private_key(sk: PrivateKey) -> (r: KeyPair)
        ensures
            r.private_view() == sk@,
            r.public_view() == public_key_of(sk@),
    {
        let pk = sk.public_key();
        KeyPair { sk, pk }
    }

    /// Draws a fresh private key from `rng` and derives its public key. A draw
    /// of the zero scalar is refused as a failure of the randomness source.
    pub fn generate(rng: &mut rand::rngs::StdRng) -> (r: Result<KeyPair, VrfError>)
        ensures
            match r {
                Ok(kp) => valid_private_key(kp.private_view()) && kp.public_view()
                    == public_key_of(kp.private_view()),
                Err(e) => e == VrfError::Randomness,
            },
    {
        let b = draw_private_key(rng);
        match PrivateKey::from_bytes(b.as_slice()) {
            Ok(sk) => {
                proof {
                    use_type_invariant(&sk);
                }
                Ok(KeyPair::from_private_key(sk))
            },
            Err(_) => Err(VrfError::Randomness),
        }
    }

    /// The private key.
    pub fn private_key(&self) -> (r: &PrivateKey)
        ensures
            r@ == self.private_view(),
    {
        &self.sk
    }

    /// The public key.
    pub fn public_key(&self) -> (r: &PublicKey)
        ensures
            r@ == self.public_view(),
            r@ == public_key_of(self.private_view()),
    {
        proof {
            use_type_invariant(self);
        }
        &self.pk
    }

    /// The layout that the ECVRF backend takes: public key, then private key.
    pub(crate) fn pair_bytes(&self) -> (r: Vec<u8>)
        ensures
            r@.len() == POINT_LEN + SCALAR_LEN,
            valid_private_key(r@.subrange(32, 64)),
            r@.subrange(32, 64) == self.private_view(),
            r@.subrange(0, 32) == public_key_of(r@.subrange(32, 64)),
    {
        proof {
            use_type_invariant(self);
            use_type_invariant(&self.sk);
            use_type_invariant(&self.pk);
        }
        let r = concat(self.pk.bytes.as_slice(), self.sk.bytes.as_slice());
        assert(r@.subrange(0, 32) == self.pk@);
        assert(r@.subrange(32, 64) == self.sk@);
        r
    }
}

/// A proof: gamma (a group element), a 16-byte challenge and a response scalar.
pub struct Proof {
    gamma: Vec<u8>,
    challenge: Vec<u8>,
    response: Vec<u8>,
}

impl View for Proof {
    type V = Seq<u8>;

    /// The proof's 80-byte encoding.
    closed spec fn view(&self) -> Seq<u8> {
        self.gamma@ + self.challenge@ + self.response@
    }
}

impl Proof {
    #[verifier::type_invariant]
    spec fn inv(self) -> bool {
        &&& self.gamma@.len() == POINT_LEN
        &&& self.challenge@.len() == CHALLENGE_LEN
        &&& is_point_encoding(self.gamma@)
        &&& is_canonical_scalar(self.response@)
    }

    /// Builds a proof from an encoding whose layout holds.
    pub(crate) fn from_layout(b: &[u8]) -> (r: Proof)
        requires
            proof_layout(b@),
        ensures
            r@ == b@,
    {
        let gamma = slice_to_vec(slice_subrange(b, 0, POINT_LEN));
        let challenge = slice_to_vec(slice_subrange(b, POINT_LEN, POINT_LEN + CHALLENGE_LEN));
        let response = slice_to_vec(slice_subrange(b, POINT_LEN + CHALLENGE_LEN, PROOF_LEN));
        assert(gamma@ + challenge@ + response@ =~= b@);
        Proof { gamma, challenge, response }
    }

    /// Decodes a proof from exactly 80 bytes: gamma must be a point other than
    /// the identity, and the response a canonical scalar.
    pub fn from_bytes(b: &[u8]) -> (r: Result<Proof, VrfError>)
        ensures
            match r {
                Ok(p) => proof_error(b@) is None && p@ == b@,
                Err(e) => proof_error(b@) == Some(e),
            },
    {
        if b.len() != PROOF_LEN {
            return Err(VrfError::InvalidEncoding);
        }
        let gamma = slice_subrange(b, 0, POINT_LEN);
        let response = slice_subrange(b, POINT_LEN + CHALLENGE_LEN, PROOF_LEN);
        if !decodes_as_point(gamma) || is_all_zero(gamma) || !decodes_as_scalar(response) {
            return Err(VrfError::InvalidEncoding);
        }
        Ok(Proof::from_layout(b))
    }

    /// The 80-byte encoding: gamma, then challenge, then response.
    pub fn to_bytes(&self) -> (r: Vec<u8>)
        ensures
            r@ == self@,
            proof_layout(r@),
    {
        proof {
            use_type_invariant(self);
        }
        let head = concat(self.gamma.as_slice(), self.challenge.as_slice());
        let r = concat(head.as_slice(), self.response.as_slice());
        assert(gamma_part(r@) =~= self.gamma@);
        assert(response_part(r@) =~= self.response@);
        r
    }
}

} // verus!
