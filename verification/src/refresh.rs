//! The flag by which the user interface asks a sleeping poller to refresh
//! at once.

use std::sync::atomic::AtomicBool;
use std::sync::atomic::Ordering;
use vstd::prelude::*;

verus! {

/// A refresh request shared between the user interface and one poller.
/// It is an atomic flag: another thread may set or clear it at any time,
/// so no contract states what a read of it returns.
pub struct RefreshSignal {
    flag: AtomicBool,
}

impl RefreshSignal {
    /// A signal with no request pending.
    pub fn new() -> (s: RefreshSignal) {
        RefreshSignal { flag: AtomicBool::new(false) }
    }

    /// Asks the poller to refresh now.
    pub fn request(&self) {
        self.flag.store(true, Ordering::Relaxed);
    }

    /// Takes a pending request, if any: answers whether one was pending and
    /// leaves none pending.
    pub fn take(&self) -> (pending: bool) {
        self.flag.swap(false, Ordering::Relaxed)
    }
}

} // verus!
