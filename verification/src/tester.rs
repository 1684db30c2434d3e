//! The decisions of the test observer: how long to wait for a rendered
//! snapshot to satisfy a predicate.

use vstd::prelude::*;

verus! {

/// The pause between two looks at the snapshot, in milliseconds.
pub const POLL_INTERVAL_MILLIS: u64 = 10;

/// The default patience of `wait_for`, in seconds.
pub const DEFAULT_TIMEOUT_SECS: u64 = 5;

/// How long a program gets to complete before it is shut down by force,
/// in seconds.
pub const FORCED_SHUTDOWN_SECS: u64 = 5;

/// The number of looks that the attempt-counting wait takes.
pub const WAIT_ATTEMPTS: u32 = 100;

/// What a waiting observer does after a look at the snapshot.
#[derive(Clone, Copy, PartialEq, Eq, Debug, Structural)]
pub enum WaitStep {
    /// The predicate holds: the wait succeeds.
    Satisfied,
    /// The wait fails with the last snapshot.
    TimedOut,
    /// Pause for this many milliseconds, then look again.
    Sleep(u64),
}

/// What a look at the snapshot asks for when the wait is bounded in time.
pub open spec fn timed_wait(satisfied: bool, elapsed_nanos: u128, timeout_nanos: u128) -> WaitStep {
    if satisfied {
        WaitStep::Satisfied
    } else if elapsed_nanos > timeout_nanos {
        WaitStep::TimedOut
    } else {
        WaitStep::Sleep(POLL_INTERVAL_MILLIS)
    }
}

/// One look of a wait that is bounded in time. A snapshot that satisfies
/// the predicate ends the wait with success, however late. Otherwise the
/// wait fails once strictly more than the timeout has passed since it
/// began, and pauses before the next look until then.
pub fn wait_for_timeout(satisfied: bool, elapsed_nanos: u128, timeout_nanos: u128) -> (step: WaitStep)
    ensures
        step == timed_wait(satisfied, elapsed_nanos, timeout_nanos),
{
    if satisfied {
        WaitStep::Satisfied
    } else if elapsed_nanos > timeout_nanos {
        WaitStep::TimedOut
    } else {
        WaitStep::Sleep(POLL_INTERVAL_MILLIS)
    }
}

/// One look of a wait that is bounded in attempts; `attempt` counts the
/// looks taken before. After `WAIT_ATTEMPTS` looks the wait fails without
/// another one. Otherwise the snapshot is looked at once: the wait succeeds
/// if the predicate holds, and pauses before the next look if not.
pub fn wait_for<F: FnOnce() -> bool>(attempt: u32, look: F) -> (step: WaitStep)
    requires
        attempt < WAIT_ATTEMPTS ==> call_requires(look, ()),
    ensures
        attempt >= WAIT_ATTEMPTS ==> step == WaitStep::TimedOut,
        attempt < WAIT_ATTEMPTS ==> exists|satisfied: bool|
            call_ensures(look, (), satisfied) && step == if satisfied {
                WaitStep::Satisfied
            } else {
                WaitStep::Sleep(POLL_INTERVAL_MILLIS)
            },
{
    if attempt >= WAIT_ATTEMPTS {
        return WaitStep::TimedOut;
    }
    let satisfied = look();
    let step = if satisfied {
        WaitStep::Satisfied
    } else {
        WaitStep::Sleep(POLL_INTERVAL_MILLIS)
    };
    assert(call_ensures(look, (), satisfied));
    step
}

} // verus!
