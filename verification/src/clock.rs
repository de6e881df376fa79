//! The monotonic clock: Tokio's `Instant` and the standard `Duration`.
//!
//! Nothing in this file is proved. Each item states what the verifier is to
//! believe of a function that it cannot read.

use vstd::prelude::*;
use std::time::Duration;
use tokio::time::Instant;

verus! {

/// `tokio::time::Instant`, a reading of the monotonic clock. A value is carried
/// through and handed back to Tokio; nothing is known of what it holds.
#[verifier::external_type_specification]
#[verifier::external_body]
pub struct ExInstant(Instant);

/// The length of a duration in whole nanoseconds: the number that
/// `Duration::as_nanos` returns for it.
pub uninterp spec fn duration_nanos(duration: Duration) -> nat;

/// `Duration::as_nanos` returns the length of the duration in nanoseconds.
pub assume_specification[ Duration::as_nanos ](duration: &Duration) -> (nanos: u128)
    ensures
        nanos == duration_nanos(*duration),
;

/// `Duration::from_nanos` returns the duration that is `nanos` nanoseconds long.
pub assume_specification[ Duration::from_nanos ](nanos: u64) -> (duration: Duration)
    ensures
        duration_nanos(duration) == nanos,
;

/// `Instant::now` reads the clock. The reading depends on when the call is made,
/// so nothing is promised of it.
pub assume_specification[ Instant::now ]() -> (now: Instant)
;

/// `Instant::elapsed` returns the time that has passed on Tokio's clock since
/// the instant was read from it. It depends on when the call is made, so nothing
/// is promised of it. The timers call it on instants that `Instant::now` gave
/// them, never on made-up ones, which Tokio warns may make it panic.
pub assume_specification[ Instant::elapsed ](instant: &Instant) -> (gap: Duration)
;

} // verus!
