//! The shutdown signal: one flag for the whole program, raised once and
//! never lowered.

use vstd::prelude::*;

verus! {

/// The shutdown signal. It starts lowered, and nothing lowers it again once
/// it is raised.
#[derive(Debug)]
pub struct ShutdownSignal {
    raised: bool,
}

impl View for ShutdownSignal {
    type V = bool;

    /// Whether the signal is raised.
    closed spec fn view(&self) -> bool {
        self.raised
    }
}

impl ShutdownSignal {
    /// A lowered signal.
    pub fn new() -> (signal: ShutdownSignal)
        ensures
            !signal@,
    {
        ShutdownSignal { raised: false }
    }

    /// Raises the signal. Raising a raised signal changes nothing.
    pub fn raise(&mut self)
        ensures
            final(self)@,
    {
        self.raised = true;
    }

    /// Whether the signal is raised.
    pub fn is_raised(&self) -> (raised: bool)
        ensures
            raised == self@,
    {
        self.raised
    }
}

} // verus!
