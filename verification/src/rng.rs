//! Trusted boundary to the pseudo-random number generator. The engine
//! draws exactly one bounded index at the sentience transition; everything
//! proved about that transition holds for every value the generator can
//! return.

use vstd::prelude::*;

verus! {

#[verifier::external_type_specification]
#[verifier::external_body]
pub struct ExRng(fastrand::Rng);

/// Relies on fastrand::Rng::with_seed: builds the generator in the state
/// determined by `seed`. Nothing further is assumed about it.
#[verifier::external_body]
pub fn rng_with_seed(seed: u64) -> fastrand::Rng {
    fastrand::Rng::with_seed(seed)
}

/// Relies on fastrand::Rng::usize over the half-open range `0..n`: the
/// result is strictly below `n`. The call panics on an empty range, which
/// the precondition rules out.
#[verifier::external_body]
pub fn rng_index(rng: &mut fastrand::Rng, n: usize) -> (r: usize)
    requires
        1 <= n,
    ensures
        r < n,
{
    rng.usize(0..n)
}

} // verus!
