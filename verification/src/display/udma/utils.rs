use vstd::prelude::*;

verus! {

/// DRM format modifier for linear (row-major) memory layout, indicating no tiling or compression.
pub const DRM_FORMAT_MOD_LINEAR: u64 = 0;

/// Represents a rectangular damage region; `width` and `height` are non-zero.
#[derive(Clone, Copy, Debug, PartialEq, Eq, Structural)]
pub struct Damage {
    pub x: u32,
    pub y: u32,
    pub width: u32,
    pub height: u32,
}

/// Whether `n` is a multiple of `page`, as `u64::is_multiple_of` decides it: for a page
/// size of 0 only 0 is.
pub open spec fn page_aligned(n: u64, page: u64) -> bool {
    if page == 0 {
        n == 0
    } else {
        n % page == 0
    }
}

/// `rustix::param::page_size`: the page size of the running system. It is a property of
/// the machine, so no clause is stated of it.
#[verifier::external_body]
pub fn fetch_page_size() -> (r: usize) {
    rustix::param::page_size()
}

/// The argument check `/dev/udmabuf` needs: offset and size must both be multiples of
/// the page size.
pub fn udmabuf_args_aligned(offset: u64, size: u64, page_size: u64) -> (r: bool)
    ensures
        r == (page_aligned(offset, page_size) && page_aligned(size, page_size)),
{
    if page_size == 0 {
        offset == 0 && size == 0
    } else {
        offset % page_size == 0 && size % page_size == 0
    }
}

/// Checks a `UDMABUF_CREATE` request against the system page size before the device is
/// opened. Returns the page size and whether offset and size are both page-aligned.
pub fn check_udmabuf_args(offset: u64, size: u64) -> (r: (u64, bool))
    ensures
        r.1 == (page_aligned(offset, r.0) && page_aligned(size, r.0)),
{
    let page = fetch_page_size() as u64;
    (page, udmabuf_args_aligned(offset, size, page))
}

} // verus!
