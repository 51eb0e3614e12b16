//! Random draws.

use vstd::prelude::*;

use rand::Rng;

verus! {

/// Relies on `rand::Rng::gen_range` over the thread-local generator: a
/// number from `min` to `max`, both included; an empty range panics there.
#[verifier::external_body]
pub(crate) fn roll(min: i64, max: i64) -> (r: i64)
    requires
        min <= max,
    ensures
        min <= r <= max,
{
    rand::thread_rng().gen_range(min..=max)
}

} // verus!
