//! The decision an idle timer takes each time its sleep elapses, on plain values.
//!
//! Instants are nanoseconds on a monotonic timeline whose origin the caller picks;
//! windows and remaining times are nanoseconds. Nothing here reads a clock: the
//! instant of the wake-up is an argument, so every function has an exact contract.

use vstd::prelude::*;

verus! {

/// Silence observed at `now` by a timer whose last activity was at `last`.
///
/// A monotonic clock never reads earlier than a stored instant; should `now` be
/// earlier all the same, no silence has been observed.
pub open spec fn silence(last: nat, now: nat) -> nat {
    if now >= last {
        (now - last) as nat
    } else {
        0
    }
}

/// The window has run out at `now`: the silence is strictly longer than `window`.
pub open spec fn expired(window: nat, last: nat, now: nat) -> bool {
    silence(last, now) > window
}

/// What is left of the window at `now`; zero once the silence has reached it.
pub open spec fn remaining(window: nat, last: nat, now: nat) -> nat {
    if silence(last, now) >= window {
        0
    } else {
        (window - silence(last, now)) as nat
    }
}

/// What a timer does when its sleep has elapsed.
#[derive(Clone, Copy, Debug, PartialEq, Eq, Structural)]
pub enum Verdict {
    /// The silence exceeds the window: the timeout is produced.
    Expired,
    /// Activity was recent enough: sleep again for what is left of the window.
    Rearm { remaining: u64 },
}

/// A window and the instant of the last activity seen within it.
#[derive(Clone, Copy, Debug, PartialEq, Eq, Structural)]
pub struct IdleState {
    /// Longest silence tolerated, in nanoseconds.
    pub window: u64,
    /// Instant of the last activity, in nanoseconds on the timer's timeline.
    pub last_activity: u128,
}

impl IdleState {
    /// A timer that starts its window at `now`.
    pub fn new(window: u64, now: u128) -> (state: IdleState)
        ensures
            state.window == window,
            state.last_activity == now,
    {
        IdleState { window, last_activity: now }
    }

    /// Records activity at `now`: the window starts over from there.
    pub fn visit(&mut self, now: u128)
        ensures
            final(self).window == old(self).window,
            final(self).last_activity == now,
    {
        self.last_activity = now;
    }

    /// Silence observed at `now`, in nanoseconds.
    pub fn silence(&self, now: u128) -> (gap: u128)
        ensures
            gap == silence(self.last_activity as nat, now as nat),
    {
        if now >= self.last_activity {
            now - self.last_activity
        } else {
            0
        }
    }

    /// The first instant at which a sleep armed for the rest of the window may
    /// elapse: the window's end, if no activity comes before it.
    pub open spec fn deadline(&self) -> nat {
        self.last_activity as nat + self.window as nat
    }

    /// Decides what to do when the sleep has elapsed and the clock reads `now`.
    ///
    /// The timeout is produced exactly when the silence is strictly longer than
    /// the window. Otherwise the timer is to sleep for the rest of the window,
    /// which is zero when the silence equals the window.
    pub fn wake(&self, now: u128) -> (verdict: Verdict)
        ensures
            verdict is Expired <==> expired(self.window as nat, self.last_activity as nat, now as nat),
            verdict matches Verdict::Rearm { remaining: left } ==> left as nat == remaining(
                self.window as nat,
                self.last_activity as nat,
                now as nat,
            ),
            verdict matches Verdict::Rearm { remaining: left } ==> (now >= self.last_activity
                ==> now as nat + left as nat == self.deadline()),
    {
        let gap: u128 = self.silence(now);
        if gap > self.window as u128 {
            Verdict::Expired
        } else {
            let left: u128 = self.window as u128 - gap;
            Verdict::Rearm { remaining: left as u64 }
        }
    }
}

} // verus!
