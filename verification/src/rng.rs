//! Trusted boundary to the uniform random generator.

use vstd::prelude::*;
use rand::Rng;

verus! {

/// Relies on `rand::thread_rng` and `rand::Rng::gen_range`: for an integer
/// range `lower..upper` the call returns a uniformly distributed value of
/// `[lower, upper)` and panics only on an empty range, which the precondition
/// rules out.  Nothing more is promised: the result depends on the generator's
/// state, so two calls on the same arguments may differ.
#[verifier::external_body]
pub(crate) fn sample_range(lower: i64, upper: i64) -> (r: i64)
    requires
        lower < upper,
    ensures
        lower <= r < upper,
{
    rand::thread_rng().gen_range(lower..upper)
}

} // verus!
