//! The event producer's timing decisions.
//!
//! The producer merges periodic ticks with terminal input: it polls the
//! input source for the time still left until the next tick is due, and it
//! emits one tick whenever the interval has elapsed. Those two decisions
//! are stated here; the thread, the channel and the polling itself stay
//! outside the library.

use vstd::prelude::*;

verus! {

/// How long the producer may poll for input: the remaining part of the
/// tick interval, floored at zero once the interval has elapsed.
pub fn poll_budget_ms(rate_ms: u64, elapsed_ms: u64) -> (r: u64)
    ensures
        r == if elapsed_ms <= rate_ms {
            (rate_ms - elapsed_ms) as u64
        } else {
            0u64
        },
{
    if elapsed_ms <= rate_ms {
        rate_ms - elapsed_ms
    } else {
        0
    }
}

/// Whether the tick interval has elapsed, so that one tick is due.
pub fn tick_due(rate_ms: u64, elapsed_ms: u64) -> (b: bool)
    ensures
        b == (elapsed_ms >= rate_ms),
{
    elapsed_ms >= rate_ms
}

} // verus!
