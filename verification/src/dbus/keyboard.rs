use vstd::prelude::*;

verus! {

/// Logical keyboard edge to emit on the wire.
#[derive(Debug, Clone, Copy, PartialEq, Eq, Structural)]
pub enum PressAction {
    Press,
    Release,
}

impl PressAction {
    /// The lower-case name of the edge: `"press"` or `"release"`.
    pub fn as_str(&self) -> (r: &'static str)
        ensures
            *self == PressAction::Press ==> r@ == "press"@,
            *self == PressAction::Release ==> r@ == "release"@,
    {
        match *self {
            PressAction::Press => "press",
            PressAction::Release => "release",
        }
    }
}

/// Keyboard lock-LED state as reported by QEMU (bit 0 scroll, bit 1 num, bit 2 caps).
/// Unknown bits are kept as received.
#[derive(Clone, Copy, Debug, PartialEq, Eq, Default, Structural)]
pub struct LockState {
    pub bits: u32,
}

/// Scroll-lock bit.
pub const SCROLL: u32 = 1;
/// Num-lock bit.
pub const NUM: u32 = 2;
/// Caps-lock bit.
pub const CAPS: u32 = 4;

impl LockState {
    /// Keeps every bit of `bits`, known or not.
    pub fn from_bits_retain(bits: u32) -> (r: LockState)
        ensures
            r.bits == bits,
    {
        LockState { bits }
    }

    /// The raw bits.
    pub fn bits(&self) -> (r: u32)
        ensures
            r == self.bits,
    {
        self.bits
    }

    /// Whether every bit of `flags` is set.
    pub fn contains(&self, flags: u32) -> (r: bool)
        ensures
            r == (self.bits & flags == flags),
    {
        self.bits & flags == flags
    }
}

} // verus!
