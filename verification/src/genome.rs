//! The bit-sequence genome: an ordered sequence of bits of dynamic length
//! (its *resolution*, always at least one), with resolution growth and
//! shrink, independent per-bit mutation, and a decoded value that depends
//! only on the count of set bits and the resolution.

use vstd::prelude::*;

use crate::bits::Bits;
use crate::bits::MAX_RESOLUTION;
use crate::bits::bit_seq;
use crate::bits::bv_count_ones;
use crate::bits::bv_get;
use crate::bits::bv_len;
use crate::bits::bv_new;
use crate::bits::bv_pop;
use crate::bits::bv_push;
use crate::bits::bv_set;
use crate::counting::count_ones;
use crate::counting::lemma_count_ones_le_len;
use crate::rate::MutationRate;
use crate::rng::bernoulli;
use crate::rng::fresh_rng;
use crate::rng::random_bit;

verus! {

/// A proportional genetic encoding over the binary alphabet: a sequence of
/// bits whose decoded value is the proportion of set bits projected onto a
/// caller-chosen range. The sequence is never empty.
pub struct BinaryPGA2 {
    bits: Bits,
}

impl View for BinaryPGA2 {
    type V = Seq<bool>;

    closed spec fn view(&self) -> Seq<bool> {
        bit_seq(self.bits)
    }
}

impl BinaryPGA2 {
    /// The genome's invariant: resolution is at least one.
    pub open spec fn wf(&self) -> bool {
        self@.len() >= 1
    }

    /// A genome of resolution one, its single bit uniformly random.
    pub fn new() -> (g: Self)
        ensures
            g.wf(),
            g@.len() == 1,
    {
        let mut rng = fresh_rng();
        let mut bits = bv_new();
        let bit = random_bit(&mut rng);
        bv_push(&mut bits, bit);
        BinaryPGA2 { bits }
    }

    /// A genome of exactly `resolution` bits, each independently uniformly
    /// random. Resolution zero is excluded: the invariant keeps resolution
    /// at one or more.
    pub fn with_resolution(resolution: usize) -> (g: Self)
        requires
            1 <= resolution <= MAX_RESOLUTION,
        ensures
            g.wf(),
            g@.len() == resolution,
    {
        let mut rng = fresh_rng();
        let mut bits = bv_new();
        for i in 0..resolution
            invariant
                bit_seq(bits).len() == i,
                resolution <= MAX_RESOLUTION,
        {
            let bit = random_bit(&mut rng);
            bv_push(&mut bits, bit);
        }
        BinaryPGA2 { bits }
    }

    /// The genome's resolution: the number of bits it holds.
    pub fn resolution(&self) -> (r: usize)
        ensures
            r == self@.len(),
    {
        bv_len(&self.bits)
    }

    /// The number of set bits; never more than the resolution.
    pub fn count_ones(&self) -> (r: usize)
        ensures
            r == count_ones(self@),
            r <= self@.len(),
    {
        proof {
            lemma_count_ones_le_len(self@);
        }
        bv_count_ones(&self.bits)
    }

    /// The bit at `index`.
    pub fn bit(&self, index: usize) -> (r: bool)
        requires
            index < self@.len(),
        ensures
            r == self@[index as int],
    {
        bv_get(&self.bits, index)
    }

    /// Appends one uniformly random bit: resolution grows by exactly one and
    /// the bits already present are unchanged.
    pub fn increase_resolution(&mut self)
        requires
            old(self)@.len() < MAX_RESOLUTION,
        ensures
            final(self)@.len() == old(self)@.len() + 1,
            exists|bit: bool| final(self)@ == old(self)@.push(bit),
            old(self).wf() ==> final(self).wf(),
    {
        let mut rng = fresh_rng();
        let bit = random_bit(&mut rng);
        bv_push(&mut self.bits, bit);
    }

    /// Removes the most recently appended bit when resolution is above one;
    /// at resolution one it is a no-op, so resolution never reaches zero.
    pub fn decrease_resolution(&mut self)
        requires
            old(self).wf(),
        ensures
            final(self).wf(),
            old(self)@.len() > 1 ==> final(self)@ == old(self)@.drop_last(),
            old(self)@.len() == 1 ==> final(self)@ == old(self)@,
    {
        let n = bv_len(&self.bits);
        if n > 1 {
            bv_pop(&mut self.bits);
        }
    }

    /// Flips each bit independently with probability `mutation_rate`.
    /// Resolution is unchanged; at rate one every bit is flipped, at rate
    /// zero the sequence is bit-for-bit unchanged.
    pub fn mutate(&mut self, mutation_rate: MutationRate, rng: &mut rand::rngs::ThreadRng)
        requires
            mutation_rate.wf(),
        ensures
            final(self)@.len() == old(self)@.len(),
            mutation_rate.is_always() ==> forall|i: int|
                0 <= i < old(self)@.len() ==> final(self)@[i] == !old(self)@[i],
            mutation_rate.is_never() ==> final(self)@ == old(self)@,
    {
        let numerator = mutation_rate.numerator();
        let denominator = mutation_rate.denominator();
        let n = bv_len(&self.bits);
        for index in 0..n
            invariant
                0 < denominator,
                numerator <= denominator,
                mutation_rate.is_always() <==> numerator == denominator,
                mutation_rate.is_never() <==> numerator == 0,
                bit_seq(self.bits).len() == n,
                n == old(self)@.len(),
                forall|j: int| index <= j < n ==> bit_seq(self.bits)[j] == old(self)@[j],
                mutation_rate.is_always() ==> forall|j: int|
                    0 <= j < index ==> bit_seq(self.bits)[j] == !old(self)@[j],
                mutation_rate.is_never() ==> forall|j: int|
                    0 <= j < index ==> bit_seq(self.bits)[j] == old(self)@[j],
        {
            if bernoulli(rng, numerator, denominator) {
                let current = bv_get(&self.bits, index);
                bv_set(&mut self.bits, index, !current);
            }
        }
        proof {
            if mutation_rate.is_never() {
                assert(bit_seq(self.bits) =~= old(self)@);
            }
        }
    }

    /// Runs two independent Bernoulli trials at `mutation_rate`: the first
    /// appends a random bit, the second removes the last bit (a no-op at
    /// resolution one). Both, one, or neither may fire; at rate one both
    /// fire and the sequence is unchanged, at rate zero neither fires.
    /// Resolution never leaves `[old - 1, old + 1]` and never drops below
    /// one.
    pub fn mutate_resolution(&mut self, mutation_rate: MutationRate, rng: &mut rand::rngs::ThreadRng)
        requires
            old(self).wf(),
            mutation_rate.wf(),
            old(self)@.len() < MAX_RESOLUTION,
        ensures
            final(self).wf(),
            final(self)@.len() <= old(self)@.len() + 1,
            final(self)@.len() + 1 >= old(self)@.len(),
            final(self)@ == old(self)@
                || (exists|bit: bool| final(self)@ == old(self)@.push(bit))
                || (old(self)@.len() > 1 && final(self)@ == old(self)@.drop_last()),
            mutation_rate.is_always() ==> final(self)@ == old(self)@,
            mutation_rate.is_never() ==> final(self)@ == old(self)@,
    {
        let numerator = mutation_rate.numerator();
        let denominator = mutation_rate.denominator();
        let grew = bernoulli(rng, numerator, denominator);
        if grew {
            self.increase_resolution();
        }
        let ghost mid = self@;
        let shrank = bernoulli(rng, numerator, denominator);
        if shrank {
            self.decrease_resolution();
        }
        proof {
            if grew && shrank {
                let bit = choose|bit: bool| mid == old(self)@.push(bit);
                assert(old(self)@.push(bit).drop_last() =~= old(self)@);
            }
        }
    }
}

} // verus!
