use vstd::prelude::*;

verus! {

/// Console class reported by QEMU.
#[derive(Debug, Clone, Copy, PartialEq, Eq, Structural)]
pub enum ConsoleType {
    /// Text-only terminal output.
    Text,
    /// Pixel-based graphical output.
    Graphic,
}

} // verus!
