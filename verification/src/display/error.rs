use crate::display::pixman_4cc::UnknownPixmanFormat;
use vstd::prelude::*;

verus! {

/// The display backend that an update event needs but that no scanout has set up yet.
#[derive(Debug, Clone, Copy, PartialEq, Eq, Structural)]
pub enum BackendNotReady {
    Software,
    DirectMapped,
    GpuPassthrough,
}

/// Errors of the display pipeline's own logic.
#[derive(Debug, Clone, Copy, PartialEq, Eq, Structural)]
pub enum Error {
    /// Converting from Pixman format to DRM FourCC failed.
    UnknownPixman(UnknownPixmanFormat),
    /// An update event arrived before the scanout that sets up its backend.
    BackendNotReady(BackendNotReady),
    /// mmap() returned null or the mapping was otherwise invalid.
    InvalidMapping,
    /// Attempted to redraw without any buffer staged.
    NoStagedBuffer,
    /// A partial update's pixman format differs from the staged surface's.
    PartialUpdatePixmanNotMatch,
    /// A partial update starts outside the surface.
    PartialUpdateOffScreen,
}

impl From<UnknownPixmanFormat> for Error {
    fn from(e: UnknownPixmanFormat) -> (r: Error) {
        Error::UnknownPixman(e)
    }
}

impl vstd::std_specs::convert::FromSpecImpl<UnknownPixmanFormat> for Error {
    open spec fn obeys_from_spec() -> bool {
        true
    }

    open spec fn from_spec(e: UnknownPixmanFormat) -> Error {
        Error::UnknownPixman(e)
    }
}

impl From<BackendNotReady> for Error {
    fn from(e: BackendNotReady) -> (r: Error) {
        Error::BackendNotReady(e)
    }
}

impl vstd::std_specs::convert::FromSpecImpl<BackendNotReady> for Error {
    open spec fn obeys_from_spec() -> bool {
        true
    }

    open spec fn from_spec(e: BackendNotReady) -> Error {
        Error::BackendNotReady(e)
    }
}

} // verus!
