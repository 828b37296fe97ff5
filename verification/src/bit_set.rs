use vstd::prelude::*;

verus! {

/// A bit is in a union exactly when it is in one of the two sets.
pub proof fn lemma_or_and_nonzero(a: u32, b: u32, m: u32)
    ensures
        ((a | b) & m != 0) == ((a & m != 0) || (b & m != 0)),
{
    assert(((a | b) & m != 0) == ((a & m != 0) || (b & m != 0))) by (bit_vector);
}

/// A union is empty exactly when both sets are.
pub proof fn lemma_or_zero(a: u32, b: u32)
    ensures
        ((a | b) == 0) == (a == 0 && b == 0),
{
    assert(((a | b) == 0) == (a == 0 && b == 0)) by (bit_vector);
}

/// Union is commutative, associative and idempotent, with the empty set as
/// its identity.
pub proof fn lemma_or_algebra(a: u32, b: u32, c: u32)
    ensures
        (a | b) == (b | a),
        ((a | b) | c) == (a | (b | c)),
        (a | a) == a,
        (0u32 | a) == a,
{
    assert((a | b) == (b | a)) by (bit_vector);
    assert(((a | b) | c) == (a | (b | c))) by (bit_vector);
    assert((a | a) == a) by (bit_vector);
    assert((0u32 | a) == a) by (bit_vector);
}

} // verus!
