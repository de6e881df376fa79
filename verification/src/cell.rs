//! The clock that a shared timer's handles write and its polling half reads.
//!
//! The cell is a standard `Mutex` behind an `Arc`. The three functions that lock
//! or share it are not proved: each states what the verifier is to believe.

use vstd::prelude::*;
use std::sync::{Arc, Mutex};
use crate::driver::ActivityClock;

verus! {

/// `std::sync::Mutex`. Opaque: what it guards is read and written only under
/// its lock, which the verifier does not follow.
#[verifier::external_type_specification]
#[verifier::external_body]
#[verifier::reject_recursive_types(T)]
pub struct ExMutex<T: ?Sized>(Mutex<T>);

/// `Mutex::new` wraps a value in a mutex.
pub assume_specification<T>[ Mutex::<T>::new ](value: T) -> (mutex: Mutex<T>)
;

/// The instant of the last activity, shared by every handle that holds a clone.
#[derive(Debug)]
pub(crate) struct SharedClock {
    cell: Arc<Mutex<u128>>,
}

impl SharedClock {
    /// A clock of its own that reads `at`.
    pub(crate) fn new(at: u128) -> (clock: SharedClock) {
        SharedClock { cell: Arc::new(Mutex::new(at)) }
    }

    /// Another handle on the same clock, through `Arc::clone`.
    #[verifier::external_body]
    pub(crate) fn share(&self) -> (clock: SharedClock) {
        SharedClock { cell: Arc::clone(&self.cell) }
    }

    /// Reads the clock under its lock, through `Mutex::lock`. What it reads is
    /// what some handle stored last, so nothing is promised of it. A poisoned
    /// lock is read all the same: a plain integer cannot be left half written.
    #[verifier::external_body]
    pub(crate) fn load(&self) -> (at: u128) {
        match self.cell.lock() {
            Ok(guard) => *guard,
            Err(poisoned) => *poisoned.into_inner(),
        }
    }

    /// Sets the clock to `at` under its lock, through `Mutex::lock`.
    #[verifier::external_body]
    pub(crate) fn store(&self, at: u128) {
        match self.cell.lock() {
            Ok(mut guard) => *guard = at,
            Err(poisoned) => *poisoned.into_inner() = at,
        }
    }
}

impl ActivityClock for SharedClock {
    fn last_activity(&self) -> (at: u128) {
        self.load()
    }
}

} // verus!
