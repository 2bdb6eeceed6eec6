pub mod utils;

pub use self::utils::{
    check_udmabuf_args, fetch_page_size, udmabuf_args_aligned, Damage, DRM_FORMAT_MOD_LINEAR,
};

use vstd::prelude::*;

verus! {

/// `UDMABUF_FLAGS_CLOEXEC`: the new DMA-BUF descriptor is closed on `exec`.
pub const UDMABUF_FLAGS_CLOEXEC: u32 = 0x01;

/// The argument of the `UDMABUF_CREATE` ioctl (`struct udmabuf_create` of the Linux
/// uAPI): which memfd, at which offset, how many bytes, and the flags.
#[derive(Debug, Default, Clone, Copy, PartialEq, Eq, Structural)]
pub struct UdmabufCreate {
    pub memfd: u32,
    pub flags: u32,
    pub offset: u64,
    pub size: u64,
}

impl UdmabufCreate {
    /// A request for `size` bytes of `memfd` from `offset`, with the close-on-exec flag.
    /// The descriptor is stored with the bits of the C `int` reinterpreted as unsigned.
    pub fn new(memfd: i32, offset: u64, size: u64) -> (r: UdmabufCreate)
        ensures
            r.memfd == memfd as u32,
            r.flags == UDMABUF_FLAGS_CLOEXEC,
            r.offset == offset,
            r.size == size,
    {
        UdmabufCreate { memfd: memfd as u32, flags: UDMABUF_FLAGS_CLOEXEC, offset, size }
    }
}

} // verus!
