//! The rearming loop, once for both timers.

use vstd::prelude::*;
use std::task::{Context, Poll};
use std::time::Duration;
use tokio::time::{sleep, Instant, Sleep};
use crate::sleep::{poll_sleep, MAX_SLEEP_NANOS};
use crate::state::{IdleState, Verdict};

verus! {

/// The one error of an idle timer: nothing was heard for longer than the window.
#[derive(Clone, Copy, Debug, PartialEq, Eq, Structural)]
pub struct TimedOut;

/// How many sleeps one poll rearms before it hands control back to the
/// scheduler.
pub const REARM_BUDGET: u32 = 128;

/// Where a timer keeps the instant of its last activity: in a field of its own,
/// or in a cell that it shares with its handles.
pub trait ActivityClock {
    /// The instant of the last activity, in nanoseconds since the timer's epoch.
    fn last_activity(&self) -> (at: u128);
}

impl ActivityClock for IdleState {
    fn last_activity(&self) -> (at: u128)
        ensures
            at == self.last_activity,
    {
        self.last_activity
    }
}

/// The outcome of a poll that has not timed out.
pub open spec fn pending() -> Poll<Result<(), TimedOut>> {
    Poll::Pending
}

/// The outcome of a poll that has timed out.
pub open spec fn timed_out() -> Poll<Result<(), TimedOut>> {
    Poll::Ready(Err(TimedOut))
}

/// Polls an idle timer: the armed sleep `timer`, the activity `clock`, and the
/// `epoch` from which the clock counts.
///
/// While the sleep is still running, the poll is pending and the sleep will wake
/// the task. Each time the sleep has elapsed, the silence since the last activity
/// is measured and judged by `IdleState::wake`: either the timeout is produced, or
/// the sleep is armed anew for the rest of the window and polled again at once.
///
/// A sleep that has elapsed as soon as it is armed is rearmed without yielding,
/// up to `REARM_BUDGET` times in one call. Then the task is woken and the poll
/// is pending, so that the scheduler may run others before the loop goes on.
///
/// The call never answers `Ready(Ok(()))`.
pub fn poll_idle<C: ActivityClock>(
    window: u64,
    clock: &C,
    epoch: &Instant,
    timer: &mut Sleep,
    cx: &mut Context<'_>,
) -> (outcome: Poll<Result<(), TimedOut>>)
    requires
        window <= MAX_SLEEP_NANOS,
    ensures
        outcome == pending() || outcome == timed_out(),
{
    let mut rearms: u32 = 0;
    while rearms < REARM_BUDGET
        invariant
            window <= MAX_SLEEP_NANOS,
        decreases REARM_BUDGET - rearms,
    {
        match poll_sleep(timer, cx) {
            Poll::Pending => {
                return Poll::Pending;
            },
            Poll::Ready(_) => {},
        }
        let last: u128 = clock.last_activity();
        let now: u128 = epoch.elapsed().as_nanos();
        match IdleState::new(window, last).wake(now) {
            Verdict::Expired => {
                return Poll::Ready(Err(TimedOut));
            },
            Verdict::Rearm { remaining } => {
                *timer = sleep(Duration::from_nanos(remaining));
            },
        }
        rearms = rearms + 1;
    }
    cx.waker().wake_by_ref();
    Poll::Pending
}

} // verus!
