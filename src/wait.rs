//! The decision inside a timed wait for the readiness flag.
use vstd::prelude::*;

verus! {

/// What a waiter does after looking at the readiness flag.
#[derive(Clone, Copy, Debug, PartialEq, Eq, Structural)]
pub enum WaitStep {
    /// The flag is up: stop waiting and report success.
    Ready,
    /// The timeout has elapsed with the flag down: report failure.
    TimedOut,
    /// Keep waiting for a change of the flag, at most this much longer.
    Pending { remaining_ms: u64 },
}

/// Decides a timed wait for readiness, given whether the flag is up now and
/// how long the waiter has waited so far. A waiter that finds the flag up
/// is released at once, however long it waited; one that finds it down
/// gives up only once the whole timeout has elapsed, never before.
pub fn wait_step(ready: bool, elapsed_ms: u64, timeout_ms: u64) -> (r: WaitStep)
    ensures
        ready ==> r == WaitStep::Ready,
        !ready && elapsed_ms >= timeout_ms ==> r == WaitStep::TimedOut,
        !ready && elapsed_ms < timeout_ms ==> r == (WaitStep::Pending {
            remaining_ms: (timeout_ms - elapsed_ms) as u64,
        }),
{
    if ready {
        WaitStep::Ready
    } else if elapsed_ms >= timeout_ms {
        WaitStep::TimedOut
    } else {
        WaitStep::Pending { remaining_ms: timeout_ms - elapsed_ms }
    }
}

} // verus!
