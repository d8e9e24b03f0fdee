//! Facts about sets of bits kept in a 32-bit word.

use vstd::prelude::*;

verus! {

/// Whether every bit of `bits` is one of `known`.
pub open spec fn within(bits: u32, known: u32) -> bool {
    bits & !known == 0
}

/// Union, intersection, difference and complement of bit sets within `known`
/// stay within `known`.
pub proof fn lemma_within_closed(a: u32, b: u32, known: u32)
    by (bit_vector)
    requires
        a & !known == 0,
        b & !known == 0,
    ensures
        (a | b) & !known == 0,
        (a & b) & !known == 0,
        (a & !b) & !known == 0,
        (!a & known) & !known == 0,
{
}

/// Cutting a word down to the known bits leaves known bits only, and leaves
/// a word of known bits as it is.
pub proof fn lemma_truncate_within(bits: u32, known: u32)
    by (bit_vector)
    ensures
        (bits & known) & !known == 0,
        bits & !known == 0 ==> bits & known == bits,
{
}

} // verus!
