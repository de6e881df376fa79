use std::future::poll_fn;
use std::sync::{Arc, Mutex};
use std::task::{Context, Poll, Wake, Waker};
use std::time::Duration;

use idle_timeout::{TimedOut, Timeout, Visitor, VisitorTimeout};
use tokio::runtime::{Builder, Runtime};
use tokio::time::{advance, pause, sleep, Instant};

const WINDOW: Duration = Duration::from_millis(100);
const SLACK: Duration = Duration::from_millis(10);

/// A runtime on this thread, with the time driver that the timers need.
fn runtime() -> Runtime {
    Builder::new_current_thread().enable_time().build().unwrap()
}

/// Moves the paused clock on by `millis` milliseconds.
fn pass(rt: &Runtime, millis: u64) {
    rt.block_on(advance(Duration::from_millis(millis)));
}

fn ms(n: u64) -> Duration {
    Duration::from_millis(n)
}

/// Whether a sleep of `nanos` nanoseconds, awaited on the paused clock, is over
/// within one millisecond.
fn over_within_a_millisecond(rt: &Runtime, nanos: u64) -> bool {
    let before = Instant::now();
    rt.block_on(sleep(Duration::from_nanos(nanos)));
    before.elapsed() <= ms(1)
}

/// Moves the paused clock onto a whole millisecond of Tokio's timer, which
/// rounds every deadline up to the next one. From there, a sleep of whole
/// milliseconds elapses at its deadline exactly.
fn align_with_timer(rt: &Runtime) {
    // The longest sleep that is over within one millisecond ends on a whole one.
    let mut fits: u64 = 1;
    let mut beyond: u64 = 1_000_001;
    while beyond - fits > 1 {
        let middle = fits + (beyond - fits) / 2;
        if over_within_a_millisecond(rt, middle) {
            fits = middle;
        } else {
            beyond = middle;
        }
    }
    rt.block_on(advance(Duration::from_nanos(fits % 1_000_000)));
}

/// A waker that counts how often it is asked to wake.
struct Wakes(Mutex<u32>);

impl Wake for Wakes {
    fn wake(self: Arc<Self>) {
        *self.0.lock().unwrap() += 1;
    }
}

#[test]
fn silent_timer_times_out_between_100ms_and_110ms() {
    let rt = runtime();
    let _context = rt.enter();
    pause();
    let start = Instant::now();
    let mut timer = Timeout::new(WINDOW);
    let outcome = rt.block_on(poll_fn(|cx| timer.poll_timeout(cx)));
    assert_eq!(outcome, Err(TimedOut));
    let took = start.elapsed();
    assert!(took > WINDOW, "timed out after {:?}", took);
    assert!(took <= WINDOW + SLACK, "timed out after {:?}", took);
}

#[test]
fn silent_timer_is_pending_before_its_window_ends() {
    let rt = runtime();
    let _context = rt.enter();
    pause();
    let mut timer = Timeout::new(WINDOW);
    let first = rt.block_on(poll_fn(|cx| Poll::Ready(timer.poll_timeout(cx))));
    assert_eq!(first, Poll::Pending);
    pass(&rt, 90);
    let later = rt.block_on(poll_fn(|cx| Poll::Ready(timer.poll_timeout(cx))));
    assert_eq!(later, Poll::Pending);
}

#[test]
fn visit_at_50ms_moves_timeout_to_between_150ms_and_160ms() {
    let rt = runtime();
    let _context = rt.enter();
    pause();
    let start = Instant::now();
    let mut timer = Timeout::new(WINDOW);
    pass(&rt, 50);
    timer.visit();
    // Polled at the first deadline and a little after: no timeout.
    pass(&rt, 55);
    let at_first_deadline = rt.block_on(poll_fn(|cx| Poll::Ready(timer.poll_timeout(cx))));
    assert_eq!(at_first_deadline, Poll::Pending);
    assert!(start.elapsed() < ms(150));
    let outcome = rt.block_on(poll_fn(|cx| timer.poll_timeout(cx)));
    assert_eq!(outcome, Err(TimedOut));
    let took = start.elapsed();
    assert!(took > ms(150), "timed out after {:?}", took);
    assert!(took <= ms(160), "timed out after {:?}", took);
}

#[test]
fn two_handles_visiting_at_30ms_and_80ms_move_timeout_past_180ms() {
    let rt = runtime();
    let _context = rt.enter();
    pause();
    let start = Instant::now();
    let (mut timer, first) = VisitorTimeout::new(WINDOW);
    let second: Visitor = first.clone();
    pass(&rt, 30);
    first.visit();
    pass(&rt, 50);
    second.visit();
    let outcome = rt.block_on(poll_fn(|cx| timer.poll_timeout(cx)));
    assert_eq!(outcome, Err(TimedOut));
    let took = start.elapsed();
    assert!(took >= ms(180), "timed out after {:?}", took);
    assert!(took <= ms(190), "timed out after {:?}", took);
}

#[test]
fn shared_timer_without_visits_times_out_between_100ms_and_110ms() {
    let rt = runtime();
    let _context = rt.enter();
    pause();
    let start = Instant::now();
    let (mut timer, _handle) = VisitorTimeout::new(WINDOW);
    let outcome = rt.block_on(poll_fn(|cx| timer.poll_timeout(cx)));
    assert_eq!(outcome, Err(TimedOut));
    let took = start.elapsed();
    assert!(took > WINDOW, "timed out after {:?}", took);
    assert!(took <= WINDOW + SLACK, "timed out after {:?}", took);
}

#[test]
fn visits_every_60ms_keep_the_timer_pending() {
    let rt = runtime();
    let _context = rt.enter();
    pause();
    let mut timer = Timeout::new(WINDOW);
    for _ in 0..50 {
        pass(&rt, 60);
        timer.visit();
        let state = rt.block_on(poll_fn(|cx| Poll::Ready(timer.poll_timeout(cx))));
        assert_eq!(state, Poll::Pending);
    }
}

#[test]
fn visits_through_handles_every_60ms_keep_the_shared_timer_pending() {
    let rt = runtime();
    let _context = rt.enter();
    pause();
    let (mut timer, handle) = VisitorTimeout::new(WINDOW);
    let other = handle.clone();
    for round in 0..50 {
        pass(&rt, 60);
        if round % 2 == 0 {
            handle.visit();
        } else {
            other.visit();
        }
        let state = rt.block_on(poll_fn(|cx| Poll::Ready(timer.poll_timeout(cx))));
        assert_eq!(state, Poll::Pending);
    }
}

/// When a single-owner timer visited at `visit_at` milliseconds times out.
fn owned_fires_after(visit_at: u64) -> Duration {
    let rt = runtime();
    let _context = rt.enter();
    pause();
    let start = Instant::now();
    let mut timer = Timeout::new(WINDOW);
    pass(&rt, visit_at);
    timer.visit();
    let outcome = rt.block_on(poll_fn(|cx| timer.poll_timeout(cx)));
    assert_eq!(outcome, Err(TimedOut));
    start.elapsed()
}

/// When a shared timer visited through a handle at `visit_at` milliseconds
/// times out.
fn shared_fires_after(visit_at: u64) -> Duration {
    let rt = runtime();
    let _context = rt.enter();
    pause();
    let start = Instant::now();
    let (mut timer, handle) = VisitorTimeout::new(WINDOW);
    pass(&rt, visit_at);
    handle.clone().visit();
    let outcome = rt.block_on(poll_fn(|cx| timer.poll_timeout(cx)));
    assert_eq!(outcome, Err(TimedOut));
    start.elapsed()
}

#[test]
fn visit_through_a_handle_acts_as_a_direct_visit() {
    for visit_at in [0, 1, 30, 50, 99] {
        let owned = owned_fires_after(visit_at);
        let shared = shared_fires_after(visit_at);
        let earliest = ms(visit_at) + WINDOW;
        assert!(owned > earliest && owned <= earliest + SLACK, "owned: {:?}", owned);
        assert!(shared > earliest && shared <= earliest + SLACK, "shared: {:?}", shared);
    }
}

#[test]
fn visit_landing_after_the_sleep_was_armed_costs_one_more_sleep() {
    let rt = runtime();
    let _context = rt.enter();
    pause();
    let start = Instant::now();
    let (mut timer, handle) = VisitorTimeout::new(WINDOW);
    // The sleep is armed for 100 ms; the last visit comes at 70 ms.
    pass(&rt, 70);
    handle.visit();
    let outcome = rt.block_on(poll_fn(|cx| timer.poll_timeout(cx)));
    assert_eq!(outcome, Err(TimedOut));
    // One early wake near 100 ms, one rearm for the rest, then the timeout.
    let took = start.elapsed();
    assert!(took > ms(170), "timed out after {:?}", took);
    assert!(took <= ms(180), "timed out after {:?}", took);
}

#[test]
fn timed_out_timer_times_out_again_when_polled_again() {
    let rt = runtime();
    let _context = rt.enter();
    pause();
    let mut timer = Timeout::new(WINDOW);
    let outcome = rt.block_on(poll_fn(|cx| timer.poll_timeout(cx)));
    assert_eq!(outcome, Err(TimedOut));
    let again = rt.block_on(poll_fn(|cx| Poll::Ready(timer.poll_timeout(cx))));
    assert_eq!(again, Poll::Ready(Err(TimedOut)));
}

#[test]
fn visit_after_a_timeout_starts_a_new_window() {
    let rt = runtime();
    let _context = rt.enter();
    pause();
    let mut timer = Timeout::new(WINDOW);
    let outcome = rt.block_on(poll_fn(|cx| timer.poll_timeout(cx)));
    assert_eq!(outcome, Err(TimedOut));
    timer.visit();
    let visited = Instant::now();
    let state = rt.block_on(poll_fn(|cx| Poll::Ready(timer.poll_timeout(cx))));
    assert_eq!(state, Poll::Pending);
    let outcome = rt.block_on(poll_fn(|cx| timer.poll_timeout(cx)));
    assert_eq!(outcome, Err(TimedOut));
    let took = visited.elapsed();
    assert!(took > WINDOW && took <= WINDOW + SLACK, "timed out after {:?}", took);
}

#[test]
fn zero_window_times_out_at_the_first_wake_with_any_silence() {
    let rt = runtime();
    let _context = rt.enter();
    pause();
    let mut timer = Timeout::new(Duration::from_nanos(0));
    pass(&rt, 1);
    let outcome = rt.block_on(poll_fn(|cx| timer.poll_timeout(cx)));
    assert_eq!(outcome, Err(TimedOut));
}

#[test]
fn window_is_taken_in_nanoseconds_not_coarser() {
    // A window of 2.5 ms: still pending after 2 ms, timed out by 4 ms.
    let rt = runtime();
    let _context = rt.enter();
    pause();
    let start = Instant::now();
    let mut timer = Timeout::new(Duration::from_micros(2_500));
    pass(&rt, 2);
    let state = rt.block_on(poll_fn(|cx| Poll::Ready(timer.poll_timeout(cx))));
    assert_eq!(state, Poll::Pending);
    let outcome = rt.block_on(poll_fn(|cx| timer.poll_timeout(cx)));
    assert_eq!(outcome, Err(TimedOut));
    let took = start.elapsed();
    assert!(took > Duration::from_micros(2_500) && took <= ms(4), "timed out after {:?}", took);
}

#[test]
fn try_new_takes_the_longest_sleep_and_nothing_longer() {
    let rt = runtime();
    let _context = rt.enter();
    let longest = Duration::from_millis(68_719_476_734);
    assert!(Timeout::try_new(longest).is_some());
    assert!(Timeout::try_new(longest + Duration::from_nanos(1)).is_none());
    assert!(Timeout::try_new(Duration::MAX).is_none());
    assert!(VisitorTimeout::try_new(longest).is_some());
    assert!(VisitorTimeout::try_new(longest + Duration::from_nanos(1)).is_none());
    assert!(VisitorTimeout::try_new(Duration::MAX).is_none());
}

#[test]
fn try_new_gives_a_working_timer() {
    let rt = runtime();
    let _context = rt.enter();
    pause();
    let start = Instant::now();
    let mut timer = Timeout::try_new(WINDOW).unwrap();
    let outcome = rt.block_on(poll_fn(|cx| timer.poll_timeout(cx)));
    assert_eq!(outcome, Err(TimedOut));
    let took = start.elapsed();
    assert!(took > WINDOW && took <= WINDOW + SLACK, "timed out after {:?}", took);
}

#[test]
fn timers_on_the_real_clock_time_out_after_their_window() {
    let rt = runtime();
    let _context = rt.enter();
    let start = std::time::Instant::now();
    let (mut shared, handle) = VisitorTimeout::new(ms(40));
    let mut owned = Timeout::new(ms(20));
    assert_eq!(rt.block_on(poll_fn(|cx| owned.poll_timeout(cx))), Err(TimedOut));
    assert!(start.elapsed() > ms(20));
    handle.visit();
    let visited = std::time::Instant::now();
    assert_eq!(rt.block_on(poll_fn(|cx| shared.poll_timeout(cx))), Err(TimedOut));
    assert!(visited.elapsed() > ms(40));
    assert!(start.elapsed() > ms(60));
}

#[test]
fn silence_equal_to_the_window_rearms_and_then_yields() {
    let rt = runtime();
    let _context = rt.enter();
    pause();
    align_with_timer(&rt);
    let mut timer = Timeout::new(WINDOW);
    pass(&rt, 100);
    // The silence is the window exactly: no timeout. Each sleep for the zero
    // time left has elapsed as soon as it is armed, so the poll uses up its
    // rearms, wakes the task once and is pending.
    let wakes = Arc::new(Wakes(Mutex::new(0)));
    let waker = Waker::from(wakes.clone());
    let mut cx = Context::from_waker(&waker);
    assert_eq!(timer.poll_timeout(&mut cx), Poll::Pending);
    assert_eq!(*wakes.0.lock().unwrap(), 1);
    assert_eq!(timer.poll_timeout(&mut cx), Poll::Pending);
    assert_eq!(*wakes.0.lock().unwrap(), 2);
    // One nanosecond more, and the silence exceeds the window.
    rt.block_on(advance(Duration::from_nanos(1)));
    assert_eq!(timer.poll_timeout(&mut cx), Poll::Ready(Err(TimedOut)));
    assert_eq!(*wakes.0.lock().unwrap(), 2);
}

#[test]
fn shared_timer_with_silence_equal_to_the_window_rearms_and_then_yields() {
    let rt = runtime();
    let _context = rt.enter();
    pause();
    align_with_timer(&rt);
    let (mut timer, handle) = VisitorTimeout::new(WINDOW);
    pass(&rt, 40);
    handle.visit();
    pass(&rt, 100);
    let wakes = Arc::new(Wakes(Mutex::new(0)));
    let waker = Waker::from(wakes.clone());
    let mut cx = Context::from_waker(&waker);
    assert_eq!(timer.poll_timeout(&mut cx), Poll::Pending);
    assert_eq!(*wakes.0.lock().unwrap(), 1);
    rt.block_on(advance(Duration::from_nanos(1)));
    assert_eq!(timer.poll_timeout(&mut cx), Poll::Ready(Err(TimedOut)));
}
