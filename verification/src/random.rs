//! Chance.

use vstd::prelude::*;
use rand::Rng;

verus! {

/// Draws a number below `bound` from the thread's random generator:
/// `rand::thread_rng().gen_range(0..bound)`. The draw is uniform; the
/// contract states only what holds of every draw, that the number lies
/// below the bound. The generator rejects an empty range, so the bound
/// must be positive.
#[verifier::external_body]
pub(crate) fn random_below(bound: usize) -> (r: usize)
    requires
        bound > 0,
    ensures
        r < bound,
{
    rand::thread_rng().gen_range(0..bound)
}

/// A number below `bound`, drawn at random; none if there is no number
/// below the bound.
pub fn random_index(bound: usize) -> (r: Option<usize>)
    ensures
        r is Some <==> bound > 0,
        r matches Some(i) ==> i < bound,
{
    if bound > 0 {
        Some(random_below(bound))
    } else {
        None
    }
}

} // verus!
