//! What holds of every timer, proved over the timeline model.

use vstd::prelude::*;
use crate::state::{expired, remaining, IdleState, Verdict};
use crate::timeline::{
    direct_events, last_visit, latest, silent, steady, Event, SharedEvent, SharedTimeline,
    Timeline,
};

verus! {

/// One permitted event leaves a sound state sound; it keeps the window, and
/// neither the clock nor the last activity moves backwards.
pub proof fn lemma_step_sound(s: Timeline, event: Event, slack: nat)
    requires
        s.sound(),
        s.permits(event, slack),
    ensures
        s.step(event).sound(),
        s.step(event).window == s.window,
        s.step(event).last_activity >= s.last_activity,
        s.step(event).now == event.time(),
        s.fired is Some ==> s.step(event).fired == s.fired && s.step(event).last_activity
            == s.last_activity,
{
}

/// An admitted sequence of events leaves a sound state sound.
pub proof fn lemma_run_sound(s: Timeline, events: Seq<Event>, slack: nat)
    requires
        s.sound(),
        s.admits(events, slack),
    ensures
        s.run(events).sound(),
        s.run(events).window == s.window,
        s.run(events).last_activity >= s.last_activity,
        s.run(events).now == latest(s.now, events),
        s.fired is Some ==> s.run(events).fired == s.fired,
    decreases events.len(),
{
    if events.len() > 0 {
        lemma_run_sound(s, events.drop_last(), slack);
        lemma_step_sound(s.run(events.drop_last()), events.last(), slack);
    }
}

/// Running two sequences one after the other is running their concatenation.
pub proof fn lemma_run_concat(s: Timeline, first: Seq<Event>, second: Seq<Event>, slack: nat)
    ensures
        s.run(first + second) == s.run(first).run(second),
        s.admits(first + second, slack) <==> s.admits(first, slack) && s.run(first).admits(
            second,
            slack,
        ),
    decreases second.len(),
{
    if second.len() > 0 {
        assert((first + second).drop_last() =~= first + second.drop_last());
        lemma_run_concat(s, first, second.drop_last(), slack);
    }
}

/// What a timer does while nobody visits it.
///
/// Take a sound state in which the timeout has not been produced, and wakes
/// only. The window's end is `s.last_activity + s.window`. Only the first wake
/// can come before it, and not even that one where the sleep is armed for it. A
/// timeout is produced strictly after the window's end and at most `slack` later.
/// As long as none has been produced, every wake after the first came exactly at
/// the window's end.
pub proof fn lemma_silent_run(s: Timeline, events: Seq<Event>, slack: nat)
    requires
        s.sound(),
        s.fired is None,
        silent(events),
        s.admits(events, slack),
    ensures
        s.run(events).last_activity == s.last_activity,
        s.run(events).window == s.window,
        s.run(events).fired is None && (events.len() > 0 || s.deadline == s.last_activity
            + s.window) ==> s.run(events).deadline == s.last_activity + s.window,
        forall|i: int|
            1 <= i < events.len() ==> (#[trigger] events[i]).time() >= s.last_activity + s.window,
        s.deadline == s.last_activity + s.window ==> forall|i: int|
            0 <= i < events.len() ==> (#[trigger] events[i]).time() >= s.last_activity + s.window,
        s.run(events).fired matches Some(at) ==> s.last_activity + s.window < at <= s.last_activity
            + s.window + slack,
        s.run(events).fired is None ==> forall|i: int|
            1 <= i < events.len() ==> (#[trigger] events[i]).time() == s.last_activity + s.window,
        s.run(events).fired is None && s.deadline == s.last_activity + s.window ==> forall|i: int|
            0 <= i < events.len() ==> (#[trigger] events[i]).time() == s.last_activity + s.window,
    decreases events.len(),
{
    if events.len() > 0 {
        let before = events.drop_last();
        assert(silent(before)) by {
            assert forall|i: int| 0 <= i < before.len() implies before[i] is Wake by {
                assert(before[i] == events[i]);
            }
        }
        lemma_silent_run(s, before, slack);
        lemma_run_sound(s, before, slack);
        assert(forall|i: int| 0 <= i < before.len() ==> before[i] == events[i]);
    }
}

/// A timer that nobody visits times out, and on time.
///
/// For a timer constructed at `t0` and woken but never visited: no wake comes
/// before `t0 + window`; a timeout is produced strictly after `t0 + window` and at
/// most `slack` later; and it has been produced unless every wake so far came at
/// `t0 + window` exactly, where the silence equals the window and does not yet
/// exceed it.
pub proof fn law_silence_times_out(window: nat, t0: nat, events: Seq<Event>, slack: nat)
    requires
        silent(events),
        Timeline::start(window, t0).admits(events, slack),
    ensures
        forall|i: int| 0 <= i < events.len() ==> (#[trigger] events[i]).time() >= t0 + window,
        Timeline::start(window, t0).run(events).fired matches Some(at) ==> t0 + window < at <= t0
            + window + slack,
        Timeline::start(window, t0).run(events).fired is None ==> forall|i: int|
            0 <= i < events.len() ==> (#[trigger] events[i]).time() == t0 + window,
{
    lemma_silent_run(Timeline::start(window, t0), events, slack);
}

/// Activity resets the deadline.
///
/// Let event `k` of an admitted sequence be a visit at `at`, before the first
/// window has run out. Then a wake at or before `at + window`, the first
/// deadline `t0 + window` among them, produces no timeout right after that visit; and whenever
/// the timer does produce its timeout, it does so strictly after `at + window`.
pub proof fn law_activity_resets_deadline(
    window: nat,
    t0: nat,
    events: Seq<Event>,
    slack: nat,
    k: int,
    at: nat,
)
    requires
        Timeline::start(window, t0).admits(events, slack),
        0 <= k < events.len(),
        events[k] == (Event::Visit { at }),
        at < t0 + window,
    ensures
        Timeline::start(window, t0).run(events.take(k + 1)).fired is None,
        Timeline::start(window, t0).run(events.take(k + 1)).last_activity == at,
        forall|wake: nat|
            wake <= at + window ==> (#[trigger] Timeline::start(window, t0).run(
                events.take(k + 1),
            ).step(Event::Wake { at: wake })).fired is None,
        t0 <= at,
        Timeline::start(window, t0).run(events).fired matches Some(fire) ==> fire > at + window,
{
    let s = Timeline::start(window, t0);
    let head = events.take(k);
    let upto = events.take(k + 1);
    let tail = events.skip(k + 1);
    assert(upto + tail =~= events);
    assert(upto.drop_last() =~= head);
    lemma_run_concat(s, upto, tail, slack);
    lemma_run_sound(s, head, slack);
    lemma_run_sound(s, upto, slack);
    lemma_run_sound(s.run(upto), tail, slack);
}

/// The running state of a steadily visited timer: no timeout yet, and the state
/// holds the last visit and the latest instant.
pub proof fn lemma_steady_run(window: nat, t0: nat, events: Seq<Event>, slack: nat, upcoming: nat)
    requires
        Timeline::start(window, t0).admits(events, slack),
        steady(window, t0, events),
        latest(t0, events) <= upcoming < last_visit(t0, events) + window,
    ensures
        Timeline::start(window, t0).run(events).fired is None,
        Timeline::start(window, t0).run(events).last_activity == last_visit(t0, events),
        Timeline::start(window, t0).run(events).now == latest(t0, events),
    decreases events.len(),
{
    let s = Timeline::start(window, t0);
    if events.len() > 0 {
        let before = events.drop_last();
        lemma_run_sound(s, before, slack);
        match events.last() {
            Event::Visit { at } => {
                lemma_steady_run(window, t0, before, slack, at);
            },
            Event::Wake { at } => {
                lemma_steady_run(window, t0, before, slack, upcoming);
            },
        }
    }
}

/// Continuous activity prevents the timeout.
///
/// Let every visit come less than `window` after the activity before it, and let
/// the next visit, at `upcoming`, be still to come and due less than `window` after
/// the last one. Then no timeout has been produced. As activity that goes on
/// indefinitely always has such a next visit, the timer never times out.
pub proof fn law_steady_activity_never_times_out(
    window: nat,
    t0: nat,
    events: Seq<Event>,
    slack: nat,
    upcoming: nat,
)
    requires
        Timeline::start(window, t0).admits(events, slack),
        steady(window, t0, events),
        latest(t0, events) <= upcoming < last_visit(t0, events) + window,
    ensures
        Timeline::start(window, t0).run(events).fired is None,
{
    lemma_steady_run(window, t0, events, slack, upcoming);
}

/// Visits through handles act as direct visits.
///
/// A shared timer, visited through any handles, is at every moment in the state
/// of a single-owner timer that was visited directly at the same instants: the
/// same last activity, the same armed deadline, and the same timeout or none.
pub proof fn law_shared_visits_act_as_direct_visits(
    window: nat,
    t0: nat,
    events: Seq<SharedEvent>,
)
    ensures
        SharedTimeline::start(window, t0).run(events).as_owned() == Timeline::start(
            window,
            t0,
        ).run(direct_events(events)),
    decreases events.len(),
{
    if events.len() > 0 {
        law_shared_visits_act_as_direct_visits(window, t0, events.drop_last());
        assert(direct_events(events).drop_last() =~= direct_events(events.drop_last()));
    }
}

/// Detection latency is bounded.
///
/// Let the last visit of a timer be at `s.last_activity`, with only wakes after
/// it. Then at most one wake, the first, comes before the window's end: a sleep
/// armed before that visit may elapse early, and rearms for the end. A timeout is
/// produced strictly after the window's end and at most `slack` later; and it has
/// been produced unless every wake after the first came at the window's end
/// exactly.
pub proof fn law_detection_latency_is_bounded(s: Timeline, events: Seq<Event>, slack: nat)
    requires
        s.sound(),
        s.fired is None,
        silent(events),
        s.admits(events, slack),
    ensures
        forall|i: int|
            1 <= i < events.len() ==> (#[trigger] events[i]).time() >= s.last_activity + s.window,
        s.run(events).fired matches Some(at) ==> s.last_activity + s.window < at <= s.last_activity
            + s.window + slack,
        s.run(events).fired is None ==> forall|i: int|
            1 <= i < events.len() ==> (#[trigger] events[i]).time() == s.last_activity + s.window,
{
    lemma_silent_run(s, events, slack);
}

/// Detection latency is bounded for a shared timer too.
///
/// Let `before` end with the last visit that any handle makes, at the instant
/// that the shared clock then holds, and let `after` hold wakes only. Then at
/// most the first wake of `after` comes before the window's end; a timeout is
/// produced strictly after the window's end and at most `slack` later; and it has
/// been produced unless every wake after the first came at the window's end
/// exactly.
pub proof fn law_shared_detection_latency_is_bounded(
    window: nat,
    t0: nat,
    before: Seq<SharedEvent>,
    after: Seq<SharedEvent>,
    slack: nat,
)
    requires
        Timeline::start(window, t0).admits(direct_events(before + after), slack),
        SharedTimeline::start(window, t0).run(before).fired is None,
        forall|i: int| 0 <= i < after.len() ==> after[i] is Wake,
    ensures
        forall|i: int|
            1 <= i < after.len() ==> (#[trigger] after[i]).direct().time()
                >= SharedTimeline::start(window, t0).run(before).clock + window,
        SharedTimeline::start(window, t0).run(before + after).fired matches Some(at)
            ==> SharedTimeline::start(window, t0).run(before).clock + window < at
            <= SharedTimeline::start(window, t0).run(before).clock + window + slack,
        SharedTimeline::start(window, t0).run(before + after).fired is None ==> forall|i: int|
            1 <= i < after.len() ==> (#[trigger] after[i]).direct().time()
                == SharedTimeline::start(window, t0).run(before).clock + window,
{
    let start = Timeline::start(window, t0);
    let head = direct_events(before);
    let tail = direct_events(after);
    assert(direct_events(before + after) =~= head + tail);
    lemma_run_concat(start, head, tail, slack);
    law_shared_visits_act_as_direct_visits(window, t0, before);
    law_shared_visits_act_as_direct_visits(window, t0, before + after);
    lemma_run_sound(start, head, slack);
    assert(silent(tail)) by {
        assert forall|i: int| 0 <= i < tail.len() implies tail[i] is Wake by {
            assert(after[i] is Wake);
        }
    }
    lemma_silent_run(start.run(head), tail, slack);
    assert forall|i: int| 1 <= i < after.len() implies (#[trigger] after[i]).direct().time()
        >= start.run(head).last_activity + window by {
        assert(tail[i] == after[i].direct());
    }
    if SharedTimeline::start(window, t0).run(before + after).fired is None {
        assert forall|i: int| 1 <= i < after.len() implies (#[trigger] after[i]).direct().time()
            == start.run(head).last_activity + window by {
            assert(tail[i] == after[i].direct());
        }
    }
}

/// The model decides as the timer does: a wake in the model produces the
/// timeout exactly when `IdleState::wake` answers `Expired`, and otherwise arms
/// the sleep for the remaining time that it answers.
pub proof fn law_model_decides_as_timer(s: Timeline, state: IdleState, now: u128, verdict: Verdict)
    requires
        s.fired is None,
        s.window == state.window,
        s.last_activity == state.last_activity,
        verdict is Expired <==> expired(state.window as nat, state.last_activity as nat, now as nat),
        verdict matches Verdict::Rearm { remaining: left } ==> left == remaining(
            state.window as nat,
            state.last_activity as nat,
            now as nat,
        ),
    ensures
        verdict is Expired <==> s.step(Event::Wake { at: now as nat }).fired == Some(now as nat),
        verdict matches Verdict::Rearm { remaining: left } ==> s.step(
            Event::Wake { at: now as nat },
        ).fired is None && s.step(Event::Wake { at: now as nat }).deadline == now + left,
{
}

} // verus!
