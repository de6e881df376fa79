//! The shared idle timer: one half polls, any number of handles visit.

use vstd::prelude::*;
use std::task::{Context, Poll};
use std::time::Duration;
use tokio::time::{sleep, Instant, Sleep};
use crate::cell::SharedClock;
use crate::clock::duration_nanos;
use crate::driver::{pending, poll_idle, timed_out, TimedOut};
use crate::sleep::MAX_SLEEP_NANOS;

verus! {

/// The polling half of a shared idle timer.
///
/// Instants are counted in nanoseconds from the timer's construction.
#[derive(Debug)]
pub struct VisitorTimeout {
    window: u64,
    clock: SharedClock,
    epoch: Instant,
    timer: Sleep,
}

/// A handle that reports activity to a shared idle timer. Clones report to the
/// same timer.
#[derive(Debug)]
pub struct Visitor {
    clock: SharedClock,
    epoch: Instant,
}

impl VisitorTimeout {
    /// The window is one that the sleep primitive can be armed for. Every timer
    /// that `new` or `try_new` returns is well formed, and polling keeps it so.
    pub closed spec fn wf(&self) -> bool {
        self.window <= MAX_SLEEP_NANOS
    }

    /// The window, in nanoseconds.
    pub closed spec fn window(&self) -> nat {
        self.window as nat
    }

    /// A timer whose window starts now and whose sleep is armed for its end,
    /// with the first handle on its clock.
    ///
    /// A window of zero is accepted: such a timer times out at the first wake
    /// that finds any silence at all.
    pub fn new(timeout: Duration) -> (pair: (VisitorTimeout, Visitor))
        requires
            duration_nanos(timeout) <= MAX_SLEEP_NANOS,
        ensures
            pair.0.wf(),
            pair.0.window() == duration_nanos(timeout),
    {
        let window: u128 = timeout.as_nanos();
        let epoch = Instant::now();
        let clock = SharedClock::new(0);
        let handle = Visitor { clock: clock.share(), epoch };
        let timer = sleep(timeout);
        (VisitorTimeout { window: window as u64, clock, epoch, timer }, handle)
    }

    /// A timer and its first handle as `new` makes them, or `None` where the
    /// window is longer than a sleep can be.
    pub fn try_new(timeout: Duration) -> (pair: Option<(VisitorTimeout, Visitor)>)
        ensures
            pair is Some <==> duration_nanos(timeout) <= MAX_SLEEP_NANOS,
            pair matches Some(p) ==> p.0.wf() && p.0.window() == duration_nanos(timeout),
    {
        if timeout.as_nanos() <= MAX_SLEEP_NANOS as u128 {
            Some(VisitorTimeout::new(timeout))
        } else {
            None
        }
    }

    /// Polls the timer, as `poll_idle` describes: pending while the window has
    /// not run out, the timeout once it has. Each judgement reads the shared
    /// clock once, under its lock. A visit that lands after that reading is seen
    /// at the next wake.
    ///
    /// A timer that has timed out may be polled again. It then judges the
    /// silence afresh: it times out again, unless a visit came in between.
    pub fn poll_timeout(&mut self, cx: &mut Context<'_>) -> (outcome: Poll<Result<(), TimedOut>>)
        requires
            old(self).wf(),
        ensures
            outcome == pending() || outcome == timed_out(),
            final(self).wf(),
            final(self).window() == old(self).window(),
    {
        poll_idle(self.window, &self.clock, &self.epoch, &mut self.timer, cx)
    }
}

impl Clone for Visitor {
    /// The clone reports to the same timer.
    fn clone(&self) -> (handle: Visitor) {
        Visitor { clock: self.clock.share(), epoch: self.epoch }
    }
}

impl Visitor {
    /// Records activity now, for the timer and every handle to see.
    pub fn visit(&self) {
        let now: u128 = self.epoch.elapsed().as_nanos();
        self.clock.store(now);
    }
}

} // verus!
