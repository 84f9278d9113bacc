//! Fixed-length byte layouts of scalars, points, keys and proofs.
use vstd::prelude::*;
use vstd::arithmetic::power2::pow2;

verus! {

/// Length of an encoded scalar.
pub const SCALAR_LEN: usize = 32;

/// Length of an encoded group element.
pub const POINT_LEN: usize = 32;

/// Length of an encoded (truncated) challenge.
pub const CHALLENGE_LEN: usize = 16;

/// Length of an encoded proof: gamma, then challenge, then response.
pub const PROOF_LEN: usize = 80;

/// Length of a VRF output.
pub const OUTPUT_LEN: usize = 64;

/// The order of the prime-order group: 2^252 + 27742317777372353535851937790883648493.
pub open spec fn group_order() -> nat {
    pow2(252) + 27742317777372353535851937790883648493
}

/// The unsigned integer that `b` holds, least significant byte first.
pub open spec fn le_value(b: Seq<u8>) -> nat
    decreases b.len(),
{
    if b.len() == 0 {
        0
    } else {
        b[0] as nat + 256 * le_value(b.drop_first())
    }
}

/// `b` is the canonical encoding of a scalar: 32 bytes holding a value below the group order.
pub open spec fn is_canonical_scalar(b: Seq<u8>) -> bool {
    b.len() == SCALAR_LEN && le_value(b) < group_order()
}

/// The gamma field of an encoded proof.
pub open spec fn gamma_part(b: Seq<u8>) -> Seq<u8> {
    b.subrange(0, POINT_LEN as int)
}

/// The challenge field of an encoded proof.
pub open spec fn challenge_part(b: Seq<u8>) -> Seq<u8> {
    b.subrange(POINT_LEN as int, (POINT_LEN + CHALLENGE_LEN) as int)
}

/// The response field of an encoded proof.
pub open spec fn response_part(b: Seq<u8>) -> Seq<u8> {
    b.subrange((POINT_LEN + CHALLENGE_LEN) as int, PROOF_LEN as int)
}

/// Every byte of `b` is zero.
pub open spec fn all_zero(b: Seq<u8>) -> bool {
    forall|i: int| 0 <= i < b.len() ==> b[i] == 0
}

/// A little-endian value is zero exactly when every byte is.
pub proof fn lemma_le_value_zero(b: Seq<u8>)
    ensures
        (le_value(b) == 0) == all_zero(b),
    decreases b.len(),
{
    if b.len() > 0 {
        lemma_le_value_zero(b.drop_first());
        if all_zero(b) {
            assert(all_zero(b.drop_first()));
        }
        if le_value(b) == 0 {
            assert forall|i: int| 0 <= i < b.len() implies b[i] == 0 by {
                if i > 0 {
                    assert(b.drop_first()[i - 1] == b[i]);
                }
            }
        }
    }
}

/// The first `n` bytes of `b`.
pub fn slice_prefix(b: &[u8], n: usize) -> (r: &[u8])
    requires
        n <= b@.len(),
    ensures
        r@ == b@.subrange(0, n as int),
{
    vstd::slice::slice_subrange(b, 0, n)
}

/// Tells whether every byte of `b` is zero.
pub fn is_all_zero(b: &[u8]) -> (r: bool)
    ensures
        r == all_zero(b@),
{
    let mut i: usize = 0;
    while i < b.len()
        invariant
            i <= b@.len(),
            forall|j: int| 0 <= j < i ==> b@[j] == 0,
        decreases b@.len() - i,
    {
        if b[i] != 0 {
            return false;
        }
        i = i + 1;
    }
    true
}

} // verus!
