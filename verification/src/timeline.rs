//! A timer's life as a sequence of events on a timeline of natural numbers.
//!
//! The model has two kinds of event. A visit reports activity. A wake is the armed
//! sleep elapsing, followed by the timer's decision, taken as one step. The sleep
//! primitive promises that a wake never comes before the deadline it was armed
//! for; how late it may come is the scheduler's slack, a parameter of the model.

use vstd::prelude::*;
use crate::state::{expired, remaining};

verus! {

/// Something that happens to a timer, with the instant at which it happens.
pub enum Event {
    /// Activity is reported.
    Visit { at: nat },
    /// The armed sleep has elapsed and the timer decides.
    Wake { at: nat },
}

impl Event {
    /// The instant of the event.
    pub open spec fn time(self) -> nat {
        match self {
            Event::Visit { at } => at,
            Event::Wake { at } => at,
        }
    }
}

/// The state of a timer between events.
pub struct Timeline {
    /// Longest silence tolerated.
    pub window: nat,
    /// Instant of the last activity.
    pub last_activity: nat,
    /// The armed sleep elapses no earlier than this.
    pub deadline: nat,
    /// Instant of the latest event.
    pub now: nat,
    /// When the timeout was produced, once it has been.
    pub fired: Option<nat>,
}

impl Timeline {
    /// A timer constructed at `t0`: the window starts there and the sleep is
    /// armed for its end.
    pub open spec fn start(window: nat, t0: nat) -> Timeline {
        Timeline { window, last_activity: t0, deadline: t0 + window, now: t0, fired: None }
    }

    /// The state after one event. A produced timeout is latched: whatever
    /// happens afterwards, only the clock moves on.
    pub open spec fn step(self, event: Event) -> Timeline {
        if self.fired is Some {
            Timeline { now: event.time(), ..self }
        } else {
            match event {
                Event::Visit { at } => Timeline { last_activity: at, now: at, ..self },
                Event::Wake { at } => if expired(self.window, self.last_activity, at) {
                    Timeline { now: at, fired: Some(at), ..self }
                } else {
                    Timeline {
                        deadline: at + remaining(self.window, self.last_activity, at),
                        now: at,
                        ..self
                    }
                },
            }
        }
    }

    /// The state after a sequence of events.
    pub open spec fn run(self, events: Seq<Event>) -> Timeline
        decreases events.len(),
    {
        if events.len() == 0 {
            self
        } else {
            self.run(events.drop_last()).step(events.last())
        }
    }

    /// Whether `event` can happen in this state: time does not run backwards, and
    /// a wake comes at its deadline or up to `slack` later.
    pub open spec fn permits(self, event: Event, slack: nat) -> bool {
        &&& event.time() >= self.now
        &&& (self.fired is None && event is Wake) ==> self.deadline <= event.time() <= self.deadline
            + slack
    }

    /// Whether the whole sequence can happen from this state, each event in the
    /// state that its predecessors leave.
    pub open spec fn admits(self, events: Seq<Event>, slack: nat) -> bool
        decreases events.len(),
    {
        if events.len() == 0 {
            true
        } else {
            &&& self.admits(events.drop_last(), slack)
            &&& self.run(events.drop_last()).permits(events.last(), slack)
        }
    }

    /// What holds of every state that a timer can reach.
    pub open spec fn sound(self) -> bool {
        &&& self.last_activity <= self.now
        &&& self.deadline <= self.last_activity + self.window
        &&& self.fired matches Some(at) ==> at <= self.now && at > self.last_activity + self.window
    }
}

/// No event of the sequence is a visit.
pub open spec fn silent(events: Seq<Event>) -> bool {
    forall|i: int| 0 <= i < events.len() ==> events[i] is Wake
}

/// Instant of the last visit among the events, or `t0` when there is none.
pub open spec fn last_visit(t0: nat, events: Seq<Event>) -> nat
    decreases events.len(),
{
    if events.len() == 0 {
        t0
    } else {
        match events.last() {
            Event::Visit { at } => at,
            Event::Wake { .. } => last_visit(t0, events.drop_last()),
        }
    }
}

/// Instant of the last event, or `t0` when there is none.
pub open spec fn latest(t0: nat, events: Seq<Event>) -> nat {
    if events.len() == 0 {
        t0
    } else {
        events.last().time()
    }
}

/// Every visit comes less than `window` after the activity before it, the
/// construction at `t0` counting as the first activity.
pub open spec fn steady(window: nat, t0: nat, events: Seq<Event>) -> bool
    decreases events.len(),
{
    if events.len() == 0 {
        true
    } else {
        &&& steady(window, t0, events.drop_last())
        &&& events.last() matches Event::Visit { at } ==> at < last_visit(t0, events.drop_last())
            + window
    }
}

/// Something that happens to a timer whose activity is reported through handles.
pub enum SharedEvent {
    /// Activity is reported through the handle numbered `handle`.
    Visit { handle: nat, at: nat },
    /// The armed sleep has elapsed and the polling half decides.
    Wake { at: nat },
}

impl SharedEvent {
    /// The same event on a timer that its owner visits directly.
    pub open spec fn direct(self) -> Event {
        match self {
            SharedEvent::Visit { handle, at } => Event::Visit { at },
            SharedEvent::Wake { at } => Event::Wake { at },
        }
    }
}

/// The events of a shared timer as direct ones, each at the same instant.
pub open spec fn direct_events(events: Seq<SharedEvent>) -> Seq<Event> {
    Seq::new(events.len(), |i: int| events[i].direct())
}

/// The state of a shared timer: the polling half's window and armed sleep, and
/// the clock that it shares with the handles.
pub struct SharedTimeline {
    /// Longest silence tolerated.
    pub window: nat,
    /// The shared clock: instant of the last activity that any handle reported.
    pub clock: nat,
    /// The armed sleep elapses no earlier than this.
    pub deadline: nat,
    /// Instant of the latest event.
    pub now: nat,
    /// When the timeout was produced, once it has been.
    pub fired: Option<nat>,
}

impl SharedTimeline {
    /// A shared timer constructed at `t0`.
    pub open spec fn start(window: nat, t0: nat) -> SharedTimeline {
        SharedTimeline { window, clock: t0, deadline: t0 + window, now: t0, fired: None }
    }

    /// The state after one event. A visit stores its instant in the shared
    /// clock, whichever handle makes it; a wake reads the clock and decides.
    pub open spec fn step(self, event: SharedEvent) -> SharedTimeline {
        match event {
            SharedEvent::Visit { handle, at } => if self.fired is Some {
                SharedTimeline { now: at, ..self }
            } else {
                SharedTimeline { clock: at, now: at, ..self }
            },
            SharedEvent::Wake { at } => if self.fired is Some {
                SharedTimeline { now: at, ..self }
            } else if expired(self.window, self.clock, at) {
                SharedTimeline { now: at, fired: Some(at), ..self }
            } else {
                SharedTimeline {
                    deadline: at + remaining(self.window, self.clock, at),
                    now: at,
                    ..self
                }
            },
        }
    }

    /// The state after a sequence of events.
    pub open spec fn run(self, events: Seq<SharedEvent>) -> SharedTimeline
        decreases events.len(),
    {
        if events.len() == 0 {
            self
        } else {
            self.run(events.drop_last()).step(events.last())
        }
    }

    /// The single-owner state with the same window, activity, sleep and outcome.
    pub open spec fn as_owned(self) -> Timeline {
        Timeline {
            window: self.window,
            last_activity: self.clock,
            deadline: self.deadline,
            now: self.now,
            fired: self.fired,
        }
    }
}

} // verus!
