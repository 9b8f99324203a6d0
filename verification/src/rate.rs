//! The per-trial mutation probability, held as an exact ratio
//! `numerator / denominator` so the Bernoulli trials it drives can be stated
//! and sampled without rounding.

use vstd::prelude::*;

verus! {

/// A mutation rate: the probability `numerator / denominator`, in `[0, 1]`,
/// of each independent Bernoulli trial.
#[derive(Clone, Copy, PartialEq, Eq, Structural, Debug)]
pub struct MutationRate {
    numerator: u32,
    denominator: u32,
}

impl MutationRate {
    /// The numerator of the rate, as a spec value.
    pub closed spec fn numerator_spec(&self) -> u32 {
        self.numerator
    }

    /// The denominator of the rate, as a spec value.
    pub closed spec fn denominator_spec(&self) -> u32 {
        self.denominator
    }

    /// A valid rate has a positive denominator and lies in `[0, 1]`.
    pub closed spec fn wf(&self) -> bool {
        0 < self.denominator && self.numerator <= self.denominator
    }

    /// The rate is exactly one: every trial succeeds.
    pub closed spec fn is_always(&self) -> bool {
        self.numerator == self.denominator
    }

    /// The rate is exactly zero: no trial succeeds.
    pub closed spec fn is_never(&self) -> bool {
        self.numerator == 0
    }

    /// The probability `numerator / denominator`. Rates outside `[0, 1]` are
    /// rejected, as the system invariant requires.
    pub fn new(numerator: u32, denominator: u32) -> (r: Self)
        requires
            0 < denominator,
            numerator <= denominator,
        ensures
            r.wf(),
            r.is_always() <==> numerator == denominator,
            r.is_never() <==> numerator == 0,
    {
        MutationRate { numerator, denominator }
    }

    /// The rate one: flip or fire on every trial.
    pub fn always() -> (r: Self)
        ensures
            r.wf(),
            r.is_always(),
            !r.is_never(),
    {
        MutationRate { numerator: 1, denominator: 1 }
    }

    /// The rate zero: never flip or fire.
    pub fn never() -> (r: Self)
        ensures
            r.wf(),
            r.is_never(),
            !r.is_always(),
    {
        MutationRate { numerator: 0, denominator: 1 }
    }

    pub(crate) fn numerator(&self) -> (r: u32)
        ensures
            r == self.numerator_spec(),
            self.is_never() <==> r == 0,
    {
        self.numerator
    }

    pub(crate) fn denominator(&self) -> (r: u32)
        ensures
            r == self.denominator_spec(),
            self.is_always() <==> r == self.numerator_spec(),
            self.wf() ==> (0 < r && self.numerator_spec() <= r),
    {
        self.denominator
    }
}

} // verus!
