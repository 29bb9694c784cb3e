//! Containment over 64-bit flag sets, and its order laws.
//!
//! A flag value is a set of bits; one value contains another when every bit
//! of the candidate is present. Containment is therefore the bitwise-subset
//! relation, a partial order on raw values.

use vstd::prelude::*;

verus! {

/// `value` contains `flag` when all of `flag`'s bits are set in `value`.
pub open spec fn flags_contain(value: u64, flag: u64) -> bool {
    value & flag == flag
}

/// Containment is reflexive: every flag value contains itself.
pub proof fn lemma_contain_reflexive(a: u64)
    ensures
        flags_contain(a, a),
{
    assert(a & a == a) by (bit_vector);
}

/// Containment is antisymmetric, and mutual containment coincides with
/// equality of the raw bits: `a` and `b` contain each other exactly when
/// they are the same value.
pub proof fn lemma_contain_antisymmetric(a: u64, b: u64)
    ensures
        (flags_contain(a, b) && flags_contain(b, a)) <==> a == b,
{
    assert((a & b == b && b & a == a) <==> a == b) by (bit_vector);
}

/// Containment is transitive: a value containing `b` contains everything
/// `b` contains.
pub proof fn lemma_contain_transitive(a: u64, b: u64, c: u64)
    requires
        flags_contain(a, b),
        flags_contain(b, c),
    ensures
        flags_contain(a, c),
{
    assert(a & b == b && b & c == c ==> a & c == c) by (bit_vector);
}

/// A union contains both of its operands.
pub proof fn lemma_union_contains_operands(a: u64, b: u64)
    ensures
        flags_contain(a | b, a),
        flags_contain(a | b, b),
{
    assert((a | b) & a == a && (a | b) & b == b) by (bit_vector);
}

} // verus!
