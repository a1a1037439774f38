//! Draws from the thread's random number generator.
use vstd::prelude::*;
use rand::seq::IteratorRandom;

verus! {

/// `rand::random::<u32>()`: a number drawn from the thread's generator.
/// Any `u32` may come back, and two calls may give different numbers, so
/// nothing is stated of the result.
#[verifier::external_body]
pub(crate) fn random_u32() -> u32 {
    rand::random::<u32>()
}

/// `IteratorRandom::choose` on the range `start..end` with the thread's
/// generator: `None` exactly when the range is empty, else one of the
/// range's values, which one being up to chance.
#[verifier::external_body]
pub(crate) fn choose_in_range(start: u64, end: u64) -> (r: Option<u64>)
    ensures
        r is None <==> start >= end,
        r matches Some(x) ==> start <= x < end,
{
    (start..end).choose(&mut rand::thread_rng())
}

} // verus!
