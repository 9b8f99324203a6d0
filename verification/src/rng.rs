//! Trusted boundary around `rand`: the thread-local generator, a uniform
//! random bit, and an exact-ratio Bernoulli trial. Nothing is promised of a
//! random outcome except what `rand`'s source shows of the degenerate ratios.

use vstd::prelude::*;

use rand::Rng;

verus! {

#[verifier::external_type_specification]
#[verifier::external_body]
pub struct ExThreadRng(rand::rngs::ThreadRng);

/// Relies on `rand::thread_rng`: hands out the thread-local generator.
#[verifier::external_body]
pub(crate) fn fresh_rng() -> rand::rngs::ThreadRng {
    rand::thread_rng()
}

/// Relies on `Rng::gen::<bool>`: one uniformly random bit. No outcome is
/// promised.
#[verifier::external_body]
pub(crate) fn random_bit(rng: &mut rand::rngs::ThreadRng) -> bool {
    rng.gen::<bool>()
}

/// Relies on `Rng::gen_ratio`: a Bernoulli trial that succeeds with
/// probability `numerator` in `denominator`. Its source returns `false`
/// without sampling when the numerator is zero and `true` without sampling
/// when the ratio is one; it panics when the denominator is zero or the
/// numerator exceeds it, so those arguments are excluded.
#[verifier::external_body]
pub(crate) fn bernoulli(rng: &mut rand::rngs::ThreadRng, numerator: u32, denominator: u32) -> (r: bool)
    requires
        0 < denominator,
        numerator <= denominator,
    ensures
        numerator == 0 ==> r == false,
        numerator == denominator ==> r == true,
{
    rng.gen_ratio(numerator, denominator)
}

} // verus!
