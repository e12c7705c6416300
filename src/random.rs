//! The random source of a particle system, from the `rand` crate.

use vstd::prelude::*;
use rand::Rng;

verus! {

#[verifier::external_type_specification]
#[verifier::external_body]
pub struct ExThreadRng(rand::rngs::ThreadRng);

/// Relies on rand::thread_rng: a handle on this thread's generator; nothing
/// is promised of the values it will give.
pub assume_specification[ rand::thread_rng ]() -> rand::rngs::ThreadRng;

/// Relies on rand::Rng::gen_range over an inclusive integer range: the value
/// lies within `[low, high]`; it panics on an empty range, which `requires`
/// leaves out.
#[verifier::external_body]
pub(crate) fn draw_inclusive(rng: &mut rand::rngs::ThreadRng, low: i64, high: i64) -> (r: i64)
    requires
        low <= high,
    ensures
        low <= r <= high,
{
    rng.gen_range(low..=high)
}

} // verus!
