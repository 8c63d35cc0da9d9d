//! Timeout arithmetic of the fixed-tick input loop.
//!
//! Each iteration the loop waits for input at most until the next tick is
//! due. The wait is the tick interval less the time already spent since the
//! last tick, and zero once the tick is overdue, so a late tick never makes
//! the wait wrap around.

use vstd::prelude::*;

verus! {

/// Milliseconds to wait for input so that the loop wakes at the next tick:
/// what is left of `tick_rate_ms` after `elapsed_ms` has already passed.
pub fn poll_timeout_ms(tick_rate_ms: u64, elapsed_ms: u64) -> (r: u64)
    ensures
        r == if elapsed_ms <= tick_rate_ms {
            (tick_rate_ms - elapsed_ms) as int
        } else {
            0
        },
{
    if elapsed_ms <= tick_rate_ms {
        tick_rate_ms - elapsed_ms
    } else {
        0
    }
}

} // verus!
