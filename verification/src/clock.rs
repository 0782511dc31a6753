//! Timers. The arithmetic of a tick is left to the engine's own `Timer`, so
//! that a delay here ends on the very frame on which an engine timer of the
//! same duration would.

use bevy::prelude::Timer;
use std::time::Duration;
use vstd::prelude::*;

verus! {

/// Advances a timer by one tick of `delta` and reports the time on it
/// afterwards and whether it has finished. All times are whole nanoseconds.
///
/// Trusted: the body runs bevy's `Timer::tick` on a fresh, unpaused timer
/// of the given duration whose elapsed time was set to `elapsed`. The contract
/// restates that method: the timer finishes exactly when the elapsed time
/// reaches the duration; short of that it holds the sum; a finished timer that
/// does not repeat is clamped to its duration; one that repeats keeps the
/// remainder, as long as it wrapped fewer than 2^32 times. A repeating timer
/// of zero duration would divide by zero and is ruled out.
#[verifier::external_body]
pub(crate) fn tick_timer(elapsed: u64, duration: u64, repeating: bool, delta: u64) -> (out: (
    u64,
    bool,
))
    requires
        repeating ==> duration > 0,
    ensures
        out.1 == (elapsed + delta >= duration),
        !out.1 ==> out.0 == elapsed + delta,
        out.1 && !repeating ==> out.0 == duration,
        out.1 && repeating && (elapsed + delta) / (duration as int) < 0x1_0000_0000
            ==> out.0 == (elapsed + delta) % (duration as int),
{
    let mut timer = Timer::new(Duration::from_nanos(duration), repeating);
    timer.set_elapsed(Duration::from_nanos(elapsed));
    timer.tick(Duration::from_nanos(delta));
    (timer.elapsed().as_nanos() as u64, timer.finished())
}

} // verus!
