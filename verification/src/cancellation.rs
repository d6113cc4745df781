//! One-way stop signal of a batch.

use vstd::prelude::*;

verus! {

/// A flag that goes from "running" to "cancelled" and never back. Cancelling
/// is cooperative: work in progress runs to its end, only new work is held
/// back.
#[derive(Debug)]
pub struct CancellationToken {
    cancelled: bool,
}

impl View for CancellationToken {
    type V = bool;

    /// Whether the signal has been given.
    closed spec fn view(&self) -> bool {
        self.cancelled
    }
}

impl CancellationToken {
    /// A token whose signal has not been given.
    pub fn new() -> (token: Self)
        ensures
            !token@,
    {
        CancellationToken { cancelled: false }
    }

    /// Gives the signal. Giving it again changes nothing.
    pub fn cancel(&mut self)
        ensures
            final(self)@,
    {
        self.cancelled = true;
    }

    /// Whether the signal has been given.
    pub fn is_cancelled(&self) -> (cancelled: bool)
        ensures
            cancelled == self@,
    {
        self.cancelled
    }
}

} // verus!
