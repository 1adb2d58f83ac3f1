//! The core's one source of nondeterminism: uniform draws from the thread's
//! random generator. Everything downstream of a draw is verified for every
//! value the draw can take.

use vstd::prelude::*;

verus! {

/// The thread-local random generator of the `rand` crate.
#[verifier::external_type_specification]
#[verifier::external_body]
pub struct ExThreadRng(rand::rngs::ThreadRng);

/// Relies on `rand::rng`: hands out the calling thread's generator.
#[verifier::external_body]
pub(crate) fn fresh_rng() -> rand::rngs::ThreadRng {
    rand::rng()
}

/// Relies on `rand::Rng::random_range` over an `i64` range: returns a value
/// drawn uniformly from `[lo, hi)`, and panics only on an empty range, which
/// the precondition rules out.
#[verifier::external_body]
pub(crate) fn draw_range(rng: &mut rand::rngs::ThreadRng, lo: i64, hi: i64) -> (r: i64)
    requires
        lo < hi,
    ensures
        lo <= r < hi,
{
    rand::Rng::random_range(rng, lo..hi)
}

} // verus!
