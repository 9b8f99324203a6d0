//! Trusted boundary around `bitvec`'s bit-vector, which stores the genome's
//! bits. The contents of a bit-vector are named by the uninterpreted
//! `bit_seq`; each wrapper states, over that name, what the corresponding
//! `bitvec` method does, as its source shows.

use vstd::prelude::*;

use crate::counting::count_ones;

verus! {

/// The bit store the genome keeps its bits in: a `bitvec` bit-vector, opaque
/// to the verifier, reached only through the wrappers below.
#[verifier::external_body]
pub struct Bits {
    inner: bitvec::vec::BitVec<usize, bitvec::order::Lsb0>,
}

/// The sequence of bits a bit-vector holds, in index order.
pub uninterp spec fn bit_seq(v: Bits) -> Seq<bool>;

/// `bitvec` refuses to grow a bit-vector beyond `usize::MAX >> 6` bits (for a
/// `usize` store); resolutions are kept strictly below that.
pub const MAX_RESOLUTION: usize = usize::MAX / 64;

/// Relies on `BitVec::new`: constructs an empty bit-vector.
#[verifier::external_body]
pub(crate) fn bv_new() -> (r: Bits)
    ensures
        bit_seq(r) == Seq::<bool>::empty(),
{
    Bits { inner: bitvec::vec::BitVec::new() }
}

/// Relies on `BitVec::push`: appends one bit at the high end.
#[verifier::external_body]
pub(crate) fn bv_push(v: &mut Bits, bit: bool)
    requires
        bit_seq(*old(v)).len() < MAX_RESOLUTION,
    ensures
        bit_seq(*final(v)) == bit_seq(*old(v)).push(bit),
{
    v.inner.push(bit);
}

/// Relies on `BitVec::pop`: removes and returns the last bit of a non-empty
/// bit-vector.
#[verifier::external_body]
pub(crate) fn bv_pop(v: &mut Bits) -> (r: Option<bool>)
    requires
        bit_seq(*old(v)).len() > 0,
    ensures
        r == Some(bit_seq(*old(v)).last()),
        bit_seq(*final(v)) == bit_seq(*old(v)).drop_last(),
{
    v.inner.pop()
}

/// Relies on `BitVec::len`: the number of bits held.
#[verifier::external_body]
pub(crate) fn bv_len(v: &Bits) -> (r: usize)
    ensures
        r == bit_seq(*v).len(),
{
    v.inner.len()
}

/// Relies on `BitSlice`'s `Index` impl: reads the bit at `index`.
#[verifier::external_body]
pub(crate) fn bv_get(v: &Bits, index: usize) -> (r: bool)
    requires
        index < bit_seq(*v).len(),
    ensures
        r == bit_seq(*v)[index as int],
{
    v.inner[index]
}

/// Relies on `BitSlice::set`: writes the bit at `index`, leaving every other
/// bit unchanged.
#[verifier::external_body]
pub(crate) fn bv_set(v: &mut Bits, index: usize, bit: bool)
    requires
        index < bit_seq(*old(v)).len(),
    ensures
        bit_seq(*final(v)) == bit_seq(*old(v)).update(index as int, bit),
{
    v.inner.set(index, bit);
}

/// Relies on `BitSlice::count_ones`: counts the bits set to one.
#[verifier::external_body]
pub(crate) fn bv_count_ones(v: &Bits) -> (r: usize)
    ensures
        r == count_ones(bit_seq(*v)),
{
    v.inner.count_ones()
}

} // verus!
