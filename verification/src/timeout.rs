//! The single-owner idle timer.

use vstd::prelude::*;
use std::task::{Context, Poll};
use std::time::Duration;
use tokio::time::{sleep, Instant, Sleep};
use crate::clock::duration_nanos;
use crate::driver::{pending, poll_idle, timed_out, TimedOut};
use crate::sleep::MAX_SLEEP_NANOS;
use crate::state::IdleState;

verus! {

/// An idle timer that its owner both polls and visits.
///
/// Instants are counted in nanoseconds from the timer's construction.
#[derive(Debug)]
pub struct Timeout {
    state: IdleState,
    epoch: Instant,
    timer: Sleep,
}

impl Timeout {
    /// The window is one that the sleep primitive can be armed for. Every timer
    /// that `new` or `try_new` returns is well formed, and every method keeps it so.
    pub closed spec fn wf(&self) -> bool {
        self.state.window <= MAX_SLEEP_NANOS
    }

    /// The window, in nanoseconds.
    pub closed spec fn window(&self) -> nat {
        self.state.window as nat
    }

    /// Instant of the last activity, in nanoseconds since construction.
    pub closed spec fn last_activity(&self) -> nat {
        self.state.last_activity as nat
    }

    /// A timer whose window starts now and whose sleep is armed for its end.
    ///
    /// A window of zero is accepted: such a timer times out at the first wake
    /// that finds any silence at all.
    pub fn new(timeout: Duration) -> (timer: Timeout)
        requires
            duration_nanos(timeout) <= MAX_SLEEP_NANOS,
        ensures
            timer.wf(),
            timer.window() == duration_nanos(timeout),
            timer.last_activity() == 0,
    {
        let window: u128 = timeout.as_nanos();
        let epoch = Instant::now();
        let timer = sleep(timeout);
        Timeout { state: IdleState::new(window as u64, 0), epoch, timer }
    }

    /// A timer as `new` makes it, or `None` where the window is longer than a
    /// sleep can be.
    pub fn try_new(timeout: Duration) -> (timer: Option<Timeout>)
        ensures
            timer is Some <==> duration_nanos(timeout) <= MAX_SLEEP_NANOS,
            timer matches Some(t) ==> t.wf() && t.window() == duration_nanos(timeout)
                && t.last_activity() == 0,
    {
        if timeout.as_nanos() <= MAX_SLEEP_NANOS as u128 {
            Some(Timeout::new(timeout))
        } else {
            None
        }
    }

    /// Records activity now: the window starts over from the clock's reading.
    pub fn visit(&mut self)
        ensures
            final(self).wf() == old(self).wf(),
            final(self).window() == old(self).window(),
    {
        let now: u128 = self.epoch.elapsed().as_nanos();
        self.state.visit(now);
    }

    /// Polls the timer, as `poll_idle` describes: pending while the window has
    /// not run out, the timeout once it has.
    ///
    /// A timer that has timed out may be polled again. It then judges the
    /// silence afresh: it times out again, unless a visit came in between.
    pub fn poll_timeout(&mut self, cx: &mut Context<'_>) -> (outcome: Poll<Result<(), TimedOut>>)
        requires
            old(self).wf(),
        ensures
            outcome == pending() || outcome == timed_out(),
            final(self).wf(),
            final(self).window() == old(self).window(),
            final(self).last_activity() == old(self).last_activity(),
    {
        poll_idle(self.state.window, &self.state, &self.epoch, &mut self.timer, cx)
    }
}

} // verus!
