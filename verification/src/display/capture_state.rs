use crate::display::vm_display::PointerPolicy;
use vstd::prelude::*;

verus! {

/// Current pointer capture status for display input forwarding.
#[derive(Debug, Clone, Copy, PartialEq, Eq, Structural)]
pub enum PointerState {
    /// Not in auto-tracking region and not in locked mode.
    Inactive,
    /// Auto mode while cursor is inside the viewport.
    Tracking,
    /// Locked mode after a capture click.
    Captured,
}

impl Default for PointerState {
    fn default() -> (r: Self)
        ensures
            r == PointerState::Inactive,
    {
        PointerState::Inactive
    }
}

/// Mutable state machine for pointer capture transitions.
#[derive(Debug, Clone, Copy, PartialEq, Eq, Structural)]
pub struct CaptureState(PointerState);

impl View for CaptureState {
    type V = PointerState;

    closed spec fn view(&self) -> PointerState {
        self.0
    }
}

impl Default for CaptureState {
    fn default() -> (r: Self)
        ensures
            r@ == PointerState::Inactive,
    {
        CaptureState(PointerState::Inactive)
    }
}

impl CaptureState {
    /// Creates a new capture state in `PointerState::Inactive`.
    pub fn new() -> (r: Self)
        ensures
            r@ == PointerState::Inactive,
    {
        CaptureState(PointerState::Inactive)
    }

    /// Resets capture state to `PointerState::Inactive`.
    pub fn reset(&mut self)
        ensures
            final(self)@ == PointerState::Inactive,
        no_unwind
    {
        self.0 = PointerState::Inactive;
    }

    /// Enters capture for the given input policy when supported: only the auto policy
    /// starts tracking; any other policy leaves the state as it was.
    pub fn enter(&mut self, policy: PointerPolicy)
        ensures
            final(self)@ == (if policy == PointerPolicy::Auto { PointerState::Tracking } else { old(self)@ }),
        no_unwind
    {
        if policy == PointerPolicy::Auto {
            self.0 = PointerState::Tracking;
        }
    }

    /// Leaves the current capture session.
    pub fn leave(&mut self)
        ensures
            final(self)@ == PointerState::Inactive,
        no_unwind
    {
        self.reset();
    }

    /// Captures input for the given input policy when supported: only the locked policy
    /// captures; any other policy leaves the state as it was.
    pub fn capture(&mut self, policy: PointerPolicy)
        ensures
            final(self)@ == (if policy == PointerPolicy::Locked { PointerState::Captured } else { old(self)@ }),
        no_unwind
    {
        if policy == PointerPolicy::Locked {
            self.0 = PointerState::Captured;
        }
    }

    /// Releases the current capture session.
    pub fn release(&mut self)
        ensures
            final(self)@ == PointerState::Inactive,
        no_unwind
    {
        self.reset();
    }

    /// Returns whether input events should be forwarded: in every state but `Inactive`.
    pub fn should_forward(&self) -> (r: bool)
        ensures
            r == (self@ != PointerState::Inactive),
    {
        match self.0 {
            PointerState::Inactive => false,
            PointerState::Tracking | PointerState::Captured => true,
        }
    }

    /// Returns current pointer state.
    pub fn current(&self) -> (r: PointerState)
        ensures
            r == self@,
    {
        self.0
    }
}

} // verus!
