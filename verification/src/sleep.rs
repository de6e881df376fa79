//! The sleep primitive: Tokio's `Sleep` future and what polling it needs.
//!
//! Nothing in this file is proved. Each item states what the verifier is to
//! believe of a function that it cannot read.

use vstd::prelude::*;
use std::future::Future;
use std::pin::Pin;
use std::task::{Context, Poll, Waker};
use std::time::Duration;
use tokio::time::Sleep;
use crate::clock::duration_nanos;

verus! {

/// The longest sleep that Tokio's timer documents, in nanoseconds: 68719476734
/// milliseconds, about 2.2 years.
pub const MAX_SLEEP_NANOS: u64 = 68_719_476_734_000_000;

/// `tokio::time::Sleep`, an armed timer. Opaque: it is created, polled and
/// dropped.
#[verifier::external_type_specification]
#[verifier::external_body]
pub struct ExSleep(Sleep);

/// `std::task::Context`, the caller's task context. Opaque: it is handed on to
/// the sleep that is polled.
#[verifier::external_type_specification]
#[verifier::external_body]
pub struct ExContext<'a>(Context<'a>);

/// `std::task::Waker`, the handle that reschedules the caller's task. Opaque.
#[verifier::external_type_specification]
#[verifier::external_body]
pub struct ExWaker(Waker);

/// `std::task::Poll`. Declared with its variants `Ready` and `Pending`, which the
/// verifier takes from the standard library itself, so that verified code can
/// build and match them.
#[verifier::external_type_specification]
#[verifier::reject_recursive_types(T)]
pub struct ExPoll<T>(Poll<T>);

/// `tokio::time::sleep` arms a timer that elapses once `duration` has passed on
/// Tokio's clock. Durations beyond the documented maximum are left out. The call
/// needs the time driver of a Tokio runtime in its context and panics without
/// one, which no precondition can express.
pub assume_specification[ tokio::time::sleep ](duration: Duration) -> (timer: Sleep)
    requires
        duration_nanos(duration) <= MAX_SLEEP_NANOS,
;

/// Polls the sleep once, through `<Sleep as Future>::poll`: `Ready` once the
/// sleep has elapsed, else `Pending`, with the context's waker registered for the
/// moment it does. Which of the two comes back depends on the time of the call,
/// so nothing is promised of it. The poll panics if the runtime's time driver has
/// shut down, which no precondition can express.
#[verifier::external_body]
pub(crate) fn poll_sleep(timer: &mut Sleep, cx: &mut Context<'_>) -> (state: Poll<()>) {
    Pin::new(timer).poll(cx)
}

/// `Context::waker` hands out the waker of the task that is being polled.
pub assume_specification<'a>[ Context::<'a>::waker ](cx: &Context<'a>) -> (waker: &'a Waker)
;

/// `Waker::wake_by_ref` asks the scheduler to poll the task again.
pub assume_specification[ Waker::wake_by_ref ](waker: &Waker)
;

} // verus!
