//! The processing guard: at most one pipeline run at a time.

use vstd::prelude::*;

verus! {

/// A binary guard. It is taken without waiting: an attempt on a held guard
/// fails at once, and is neither queued nor retried. It is not reentrant.
#[derive(Debug, PartialEq, Eq)]
pub struct ProcessingGuard {
    held: bool,
}

impl ProcessingGuard {
    /// Whether the guard is held.
    pub closed spec fn is_held(&self) -> bool {
        self.held
    }

    /// A free guard.
    pub fn new() -> (guard: ProcessingGuard)
        ensures
            !guard.is_held(),
    {
        ProcessingGuard { held: false }
    }

    /// Takes the guard if it is free. The attempt succeeds exactly when the
    /// guard was free; the guard is held afterwards either way.
    pub fn try_acquire(&mut self) -> (acquired: bool)
        ensures
            acquired == !old(self).is_held(),
            final(self).is_held(),
    {
        if self.held {
            false
        } else {
            self.held = true;
            true
        }
    }

    /// Frees the guard.
    pub fn release(&mut self)
        ensures
            !final(self).is_held(),
    {
        self.held = false;
    }

    /// Whether the guard is held.
    pub fn held(&self) -> (held: bool)
        ensures
            held == self.is_held(),
    {
        self.held
    }
}

} // verus!
