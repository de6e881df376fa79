//! Idle-timeout monitoring: a timer that produces a timeout once no activity has
//! been reported for a whole window, and otherwise keeps rearming itself.
//!
//! [`Timeout`] is polled and visited by one owner. [`VisitorTimeout`] is polled
//! by one owner and visited through any number of [`Visitor`] handles. Both sleep
//! on Tokio's timer and must be made and polled inside a Tokio runtime whose time
//! driver is enabled.
//!
//! What a timer decides when its sleep elapses is [`IdleState::wake`], a function
//! of plain numbers with an exact contract. `timeline` models a timer's life as a
//! sequence of visits and wakes, and `laws` proves over that model when a timeout
//! can and cannot be produced. `clock`, `sleep` and `cell` hold what is believed
//! of Tokio and the standard library rather than proved.

pub mod cell;
pub mod clock;
pub mod driver;
pub mod laws;
pub mod sleep;
pub mod state;
pub mod timeline;
pub mod timeout;
pub mod visitor;

pub use driver::TimedOut;
pub use state::{IdleState, Verdict};
pub use timeout::Timeout;
pub use visitor::{Visitor, VisitorTimeout};
