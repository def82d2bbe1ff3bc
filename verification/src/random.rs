//! The random number generator, as far as the game needs it.
//!
//! Nothing in this file is verified: it states what the `rand` crate is
//! trusted to do.

use rand::rngs::ThreadRng;
use rand::Rng;
use vstd::prelude::*;

verus! {

/// `rand::rngs::ThreadRng`, the handle to the generator of the current
/// thread. Nothing is known of what is inside.
#[verifier::external_type_specification]
#[verifier::external_body]
pub struct ExThreadRng(rand::rngs::ThreadRng);

/// `rand::thread_rng` hands out the generator of the current thread. Nothing
/// is claimed of it. (It panics where the operating system cannot seed the
/// generator; no argument decides that.)
pub assume_specification[ rand::thread_rng ]() -> (rng: ThreadRng);

/// A random integer from `low` up to, but not including, `high`.
///
/// Trusted: the body calls `rand::Rng::gen_range(low, high)` on `rng`. The
/// contract claims what `gen_range` documents: the result lies in the
/// half-open range. Nothing is claimed about which number of the range comes
/// back, and two calls may differ. `gen_range` panics when `low >= high`,
/// which `requires` rules out.
#[verifier::external_body]
pub(crate) fn random_in_range(rng: &mut ThreadRng, low: i32, high: i32) -> (n: i32)
    requires
        low < high,
    ensures
        low <= n < high,
{
    rng.gen_range(low, high)
}

} // verus!
