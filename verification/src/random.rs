//! Chance. Every random choice of the game is drawn here.

use rand::Rng;
use vstd::prelude::*;

verus! {

/// Draws a number from `low` up to, and not including, `high`.
///
/// Trusted: the body calls `rand::Rng::gen_range` on `rand::thread_rng()` with
/// the half-open range `low..high`. Two draws may differ, so the contract says
/// only what holds of every draw: the number lies in the range. An empty range
/// would panic and is ruled out. The generator of the thread is seeded by the
/// system on first use and gives up only if the system cannot seed it.
#[verifier::external_body]
pub(crate) fn draw(low: u64, high: u64) -> (n: u64)
    requires
        low < high,
    ensures
        low <= n < high,
{
    rand::thread_rng().gen_range(low..high)
}

} // verus!
