use crate::display::pixman_4cc::pixman::{spec_bytes_per_pixel, Pixman};
use crate::display::pixman_4cc::{pixman_to_fourcc, spec_pixman_to_fourcc, FourCC};
use crate::display::software_rasterizer::{cell, in_rect, lemma_cell_bound, lemma_cell_unique, lemma_row_start_le};
use vstd::prelude::*;

verus! {

/// Whether byte column `c` of row `r` lies in the block of `rows` rows from row `row0`
/// and `width` bytes from byte column `col0`.
pub open spec fn in_block(r: int, c: int, row0: int, col0: int, rows: int, width: int) -> bool {
    row0 <= r < row0 + rows && col0 <= c < col0 + width
}

/// Copies a block of `rows` rows of `width` bytes into `dst`, whose `height` rows are
/// `ds` bytes apart, at row `row0` and byte column `col0`; the source rows start at
/// `base` in `src` and lie `ss` bytes apart. Every other byte keeps its value.
fn copy_block(
    dst: &mut Vec<u8>,
    ds: usize,
    height: usize,
    row0: usize,
    col0: usize,
    rows: usize,
    width: usize,
    src: &[u8],
    base: usize,
    ss: usize,
)
    requires
        old(dst)@.len() == height * ds,
        col0 + width <= ds,
        row0 + rows <= height,
        rows > 0 ==> base + (rows - 1) * ss + width <= src@.len(),
    ensures
        final(dst)@.len() == old(dst)@.len(),
        forall|r: int, c: int|
            0 <= r < height && 0 <= c < ds ==> #[trigger] final(dst)@[cell(r, c, ds as int)] == if in_block(
                r,
                c,
                row0 as int,
                col0 as int,
                rows as int,
                width as int,
            ) {
                src@[base + cell(r - row0, c - col0, ss as int)]
            } else {
                old(dst)@[cell(r, c, ds as int)]
            },
{
    if width == 0 {
        return;
    }
    let src_len = src.len();
    let dst_len = dst.len();
    let ghost old_dst = dst@;
    let ghost dsi: int = ds as int;
    let ghost ssi: int = ss as int;
    let mut i: usize = 0;
    while i < rows
        invariant
            0 <= i <= rows,
            width > 0,
            src_len == src@.len(),
            dst_len == dst@.len(),
            dsi == ds,
            ssi == ss,
            old_dst.len() == height * ds,
            dst@.len() == old_dst.len(),
            col0 + width <= ds,
            row0 + rows <= height,
            rows > 0 ==> base + (rows - 1) * ss + width <= src@.len(),
            forall|r: int, c: int|
                0 <= r < height && 0 <= c < ds ==> #[trigger] dst@[cell(r, c, dsi)] == if in_block(
                    r,
                    c,
                    row0 as int,
                    col0 as int,
                    i as int,
                    width as int,
                ) {
                    src@[base + cell(r - row0, c - col0, ssi)]
                } else {
                    old_dst[cell(r, c, dsi)]
                },
        decreases rows - i,
    {
        let row = row0 + i;
        proof {
            lemma_cell_bound(row as int, col0 as int, dsi, height as int);
            lemma_row_start_le(i as int, rows as int, ssi);
        }
        let dst_start = row * ds + col0;
        let src_start = base + i * ss;
        let mut j: usize = 0;
        while j < width
            invariant
                0 <= j <= width,
                0 <= i < rows,
                src_len == src@.len(),
                dst_len == dst@.len(),
                row == row0 + i,
                row < height,
                dsi == ds,
                ssi == ss,
                dst_start == cell(row as int, col0 as int, dsi),
                src_start == base + i * ss,
                i * ss <= (rows - 1) * ss,
                col0 + width <= ds,
                base + (rows - 1) * ss + width <= src@.len(),
                old_dst.len() == height * ds,
                dst@.len() == old_dst.len(),
                forall|r: int, c: int|
                    0 <= r < height && 0 <= c < ds ==> #[trigger] dst@[cell(r, c, dsi)] == if in_block(
                        r,
                        c,
                        row0 as int,
                        col0 as int,
                        i as int,
                        width as int,
                    ) || (r == row && col0 <= c < col0 + j) {
                        src@[base + cell(r - row0, c - col0, ssi)]
                    } else {
                        old_dst[cell(r, c, dsi)]
                    },
            decreases width - j,
        {
            proof {
                lemma_cell_bound(row as int, col0 + j, dsi, height as int);
            }
            let v = src[src_start + j];
            let ghost d: int = dst_start + j;
            let ghost before = dst@;
            dst.set(dst_start + j, v);
            proof {
                assert(d == cell(row as int, col0 + j, dsi));
                assert(v == src@[base + cell(row - row0, (col0 + j) - col0, ssi)]);
                assert forall|r: int, c: int| 0 <= r < height && 0 <= c < ds implies #[trigger] dst@[cell(
                    r,
                    c,
                    dsi,
                )] == if in_block(r, c, row0 as int, col0 as int, i as int, width as int) || (r == row && col0
                    <= c < col0 + j + 1) {
                    src@[base + cell(r - row0, c - col0, ssi)]
                } else {
                    old_dst[cell(r, c, dsi)]
                } by {
                    lemma_cell_bound(r, c, dsi, height as int);
                    if cell(r, c, dsi) == d {
                        lemma_cell_unique(r, c, row as int, col0 + j, dsi);
                    } else {
                        assert(dst@[cell(r, c, dsi)] == before[cell(r, c, dsi)]);
                        if r == row && c == col0 + j {
                            assert(false);
                        }
                    }
                }
            }
            j = j + 1;
        }
        i = i + 1;
    }
}

/// A copy of the bytes of `src`.
fn copy_bytes(src: &[u8]) -> (v: Vec<u8>)
    ensures
        v@ == src@,
{
    let mut v: Vec<u8> = Vec::with_capacity(src.len());
    let mut i: usize = 0;
    while i < src.len()
        invariant
            i <= src@.len(),
            v@ == src@.subrange(0, i as int),
        decreases src@.len() - i,
    {
        v.push(src[i]);
        proof {
            assert(src@.subrange(0, i + 1) =~= src@.subrange(0, i as int).push(src@[i as int]));
        }
        i = i + 1;
    }
    proof {
        assert(src@.subrange(0, src@.len() as int) =~= src@);
    }
    v
}

/// A shared frame buffer: `height` rows of `stride` bytes, each holding `width` pixels
/// of the `pixman` format. The bytes are the content of the shared memory object that
/// is exported to the GPU as a DMA-BUF.
pub struct ShmBuffer {
    pub bytes: Vec<u8>,
    pub width: u32,
    pub height: u32,
    pub stride: usize,
    pub pixman: Pixman,
}

impl ShmBuffer {
    /// Bytes per pixel of the buffer's format.
    pub open spec fn bpp(&self) -> int {
        spec_bytes_per_pixel(self.pixman.spec_raw())
    }

    /// The buffer size in bytes, `height * stride`.
    pub open spec fn spec_len(&self) -> int {
        self.height * self.stride
    }

    /// `height` rows of `stride` bytes, each wide enough for `width` pixels.
    pub open spec fn wf(&self) -> bool {
        &&& self.bytes@.len() == self.spec_len()
        &&& self.width * self.bpp() <= self.stride
    }

    /// A zero-filled buffer of `height` rows of `stride` bytes.
    pub fn new(width: u32, height: u32, stride: usize, pixman: Pixman) -> (r: ShmBuffer)
        requires
            height * stride <= usize::MAX,
            width * spec_bytes_per_pixel(pixman.spec_raw()) <= stride,
        ensures
            r.wf(),
            r.bytes@ == Seq::new((height * stride) as nat, |i: int| 0u8),
            r.width == width,
            r.height == height,
            r.stride == stride,
            r.pixman == pixman,
    {
        let n = height as usize * stride;
        let mut bytes: Vec<u8> = Vec::with_capacity(n);
        let mut i: usize = 0;
        while i < n
            invariant
                i <= n,
                bytes@ == Seq::new(i as nat, |k: int| 0u8),
            decreases n - i,
        {
            bytes.push(0);
            proof {
                assert(bytes@ =~= Seq::new((i + 1) as nat, |k: int| 0u8));
            }
            i = i + 1;
        }
        ShmBuffer { bytes, width, height, stride, pixman }
    }

    /// A buffer holding a copy of `buf`.
    pub fn with_buf(width: u32, height: u32, stride: usize, pixman: Pixman, buf: &[u8]) -> (r: ShmBuffer)
        requires
            buf@.len() == height * stride,
            width * spec_bytes_per_pixel(pixman.spec_raw()) <= stride,
        ensures
            r.wf(),
            r.bytes@ == buf@,
            r.width == width,
            r.height == height,
            r.stride == stride,
            r.pixman == pixman,
    {
        ShmBuffer { bytes: copy_bytes(buf), width, height, stride, pixman }
    }

    /// A copy of this buffer.
    pub fn try_clone(&self) -> (r: ShmBuffer)
        requires
            self.wf(),
        ensures
            r.wf(),
            r.bytes@ == self.bytes@,
            r.width == self.width,
            r.height == self.height,
            r.stride == self.stride,
            r.pixman == self.pixman,
    {
        ShmBuffer::with_buf(self.width, self.height, self.stride, self.pixman, self.bytes.as_slice())
    }

    /// The buffer size in bytes.
    pub fn len(&self) -> (r: usize)
        requires
            self.wf(),
        ensures
            r == self.spec_len(),
    {
        self.bytes.len()
    }

    /// Whether the buffer's storage can hold a frame of `height` rows of `stride` bytes:
    /// the sizes match. Width, stride and format are to be updated afterwards.
    pub fn is_reuseable(&self, height: u32, stride: usize) -> (r: bool)
        requires
            self.wf(),
        ensures
            r == (self.spec_len() == height * stride),
    {
        let h = height as usize;
        let len = self.bytes.len();
        if h == 0 {
            return len == 0;
        }
        if stride > len / h {
            proof {
                assert(h * stride > len) by (nonlinear_arith)
                    requires
                        h > 0,
                        stride > len / h,
                ;
            }
            return false;
        }
        proof {
            assert(h * stride <= len) by (nonlinear_arith)
                requires
                    h > 0,
                    stride <= len / h,
            ;
        }
        len == h * stride
    }

    /// Replaces the whole frame: new geometry and format, and the bytes of `buf`, which
    /// has the buffer's size.
    pub fn update_all(&mut self, width: u32, height: u32, stride: usize, pixman: Pixman, buf: &[u8])
        requires
            old(self).wf(),
            buf@.len() == old(self).spec_len(),
            buf@.len() == height * stride,
            width * spec_bytes_per_pixel(pixman.spec_raw()) <= stride,
        ensures
            final(self).wf(),
            final(self).bytes@ == buf@,
            final(self).width == width,
            final(self).height == height,
            final(self).stride == stride,
            final(self).pixman == pixman,
    {
        self.pixman = pixman;
        self.width = width;
        self.height = height;
        self.stride = stride;
        self.bytes = copy_bytes(buf);
    }

    /// Copies the `width` x `height` pixel rectangle at `(x, y)` from `buf`, whose rows are
    /// `stride` bytes apart, into the frame; every other byte keeps its value.
    pub fn update_rect(&mut self, x: u32, y: u32, width: u32, height: u32, stride: usize, buf: &[u8])
        requires
            old(self).wf(),
            x + width <= old(self).width,
            y + height <= old(self).height,
            height > 0 ==> (height - 1) * stride + width * old(self).bpp() <= buf@.len(),
        ensures
            final(self).wf(),
            final(self).width == old(self).width,
            final(self).height == old(self).height,
            final(self).stride == old(self).stride,
            final(self).pixman == old(self).pixman,
            forall|r: int, c: int|
                0 <= r < old(self).height && 0 <= c < old(self).stride ==> #[trigger] final(self).bytes@[cell(
                    r,
                    c,
                    old(self).stride as int,
                )] == if in_rect(r, c, x as int, y as int, width as int, height as int, old(self).bpp()) {
                    buf@[cell(r - y, c - x * old(self).bpp(), stride as int)]
                } else {
                    old(self).bytes@[cell(r, c, old(self).stride as int)]
                },
    {
        let bpp = self.pixman.bytes_per_pixel();
        let ghost bppi: int = bpp as int;
        proof {
            assert(x * bppi + width * bppi == (x + width) * bppi) by (nonlinear_arith);
            assert((x + width) * bppi <= self.width * bppi) by (nonlinear_arith)
                requires
                    x + width <= self.width,
                    bppi >= 0,
            ;
            assert(width * bppi <= self.width * bppi) by (nonlinear_arith)
                requires
                    width <= self.width,
                    bppi >= 0,
            ;
        }
        let col0 = x as usize * bpp;
        let row_bytes = width as usize * bpp;
        copy_block(
            &mut self.bytes,
            self.stride,
            self.height as usize,
            y as usize,
            col0,
            height as usize,
            row_bytes,
            buf,
            0,
            stride,
        );
        proof {
            assert forall|r: int, c: int| 0 <= r < self.height && 0 <= c < self.stride implies in_rect(
                r,
                c,
                x as int,
                y as int,
                width as int,
                height as int,
                bppi,
            ) == in_block(r, c, y as int, col0 as int, height as int, row_bytes as int) by {
                assert((x + width) * bppi == col0 + row_bytes) by (nonlinear_arith)
                    requires
                        col0 == x * bppi,
                        row_bytes == width * bppi,
                ;
            }
        }
    }

    /// Copies the damaged rectangle `d` from `active`, a buffer of the same geometry and
    /// format: afterwards the two agree on every byte of the rectangle.
    pub fn update_damage(&mut self, d: Damage, active: &ShmBuffer)
        requires
            old(self).wf(),
            active.wf(),
            old(self).height == active.height,
            old(self).stride == active.stride,
            old(self).width == active.width,
            old(self).pixman == active.pixman,
            d.x + d.w <= active.width,
            d.y + d.h <= active.height,
        ensures
            final(self).wf(),
            final(self).width == old(self).width,
            final(self).height == old(self).height,
            final(self).stride == old(self).stride,
            final(self).pixman == old(self).pixman,
            forall|r: int, c: int|
                0 <= r < old(self).height && 0 <= c < old(self).stride ==> #[trigger] final(self).bytes@[cell(
                    r,
                    c,
                    old(self).stride as int,
                )] == if in_rect(r, c, d.x as int, d.y as int, d.w as int, d.h as int, old(self).bpp()) {
                    active.bytes@[cell(r, c, old(self).stride as int)]
                } else {
                    old(self).bytes@[cell(r, c, old(self).stride as int)]
                },
    {
        if d.h == 0 {
            return;
        }
        let bpp = self.pixman.bytes_per_pixel();
        let len = self.bytes.len();
        let ghost bppi: int = bpp as int;
        let ghost s: int = self.stride as int;
        proof {
            assert((d.x + d.w) * bppi <= self.width * bppi) by (nonlinear_arith)
                requires
                    d.x + d.w <= self.width,
                    bppi >= 0,
            ;
            assert(d.x * bppi + d.w * bppi == (d.x + d.w) * bppi) by (nonlinear_arith);
            assert(d.w * bppi <= self.width * bppi) by (nonlinear_arith)
                requires
                    d.w <= self.width,
                    bppi >= 0,
            ;
            if d.h > 0 {
                assert((d.y + d.h - 1) * s + s <= self.height * s) by (nonlinear_arith)
                    requires
                        d.y + d.h <= self.height,
                        d.h > 0,
                        s >= 0,
                ;
                assert(d.y * s + (d.h - 1) * s == (d.y + d.h - 1) * s) by (nonlinear_arith);
            }
            assert(d.y * s + s <= self.height * s) by (nonlinear_arith)
                requires
                    d.y < self.height,
                    s >= 0,
            ;
            assert(d.x * bppi <= s);
            assert(d.y * s + d.x * bppi <= len);
        }
        let col0 = d.x as usize * bpp;
        let row_bytes = d.w as usize * bpp;
        let base = d.y as usize * self.stride + col0;
        copy_block(
            &mut self.bytes,
            self.stride,
            self.height as usize,
            d.y as usize,
            col0,
            d.h as usize,
            row_bytes,
            active.bytes.as_slice(),
            base,
            active.stride,
        );
        proof {
            assert forall|r: int, c: int| 0 <= r < self.height && 0 <= c < self.stride implies in_rect(
                r,
                c,
                d.x as int,
                d.y as int,
                d.w as int,
                d.h as int,
                bppi,
            ) == in_block(r, c, d.y as int, col0 as int, d.h as int, row_bytes as int) && (in_block(
                r,
                c,
                d.y as int,
                col0 as int,
                d.h as int,
                row_bytes as int,
            ) ==> base + cell(r - d.y, c - col0, s) == cell(r, c, s)) by {
                assert((d.x + d.w) * bppi == col0 + row_bytes) by (nonlinear_arith)
                    requires
                        col0 == d.x * bppi,
                        row_bytes == d.w * bppi,
                ;
                assert(d.y * s + (r - d.y) * s == r * s) by (nonlinear_arith);
            }
        }
    }
}

/// A damaged rectangle of a frame, in pixels.
#[derive(Clone, Copy, Debug, PartialEq, Eq, Structural)]
pub struct Damage {
    pub x: u32,
    pub y: u32,
    pub w: u32,
    pub h: u32,
}

/// What an update leaves to do with the presentation texture.
#[derive(Debug, Clone, Copy, PartialEq, Eq, Structural)]
pub enum TextureStep {
    /// The new frame is presented, with the texture already built for its buffer.
    Reuse,
    /// A new buffer holds the frame in the back slot: build a texture of format `fourcc`
    /// from it, then call [`Swapchain::present_new_texture`]. Until then the previous
    /// frame stays presented.
    Build { fourcc: FourCC },
}

/// Why a swapchain update failed.
#[derive(Debug, Clone, Copy, PartialEq, Eq, Structural)]
pub enum SwapchainError {
    /// A partial update came before any frame was presented.
    NoActiveBuffer,
    /// The pixman format has no DRM FourCC.
    UnknownPixman,
}

/// Whether `b` agrees with `a` on every visible pixel of `a` outside the rectangle `d`,
/// reading both with `a`'s geometry.
pub open spec fn agrees_outside(a: ShmBuffer, b: ShmBuffer, d: Damage) -> bool {
    forall|r: int, c: int|
        0 <= r < a.height && 0 <= c < a.width * a.bpp() && !in_rect(
            r,
            c,
            d.x as int,
            d.y as int,
            d.w as int,
            d.h as int,
            a.bpp(),
        ) ==> #[trigger] b.bytes@[cell(r, c, a.stride as int)] == a.bytes@[cell(r, c, a.stride as int)]
}

/// The byte at `(r, c)` of the back buffer once it is synchronised with the active
/// buffer `a` over the last damage `d`: a reused back buffer `b` (one of `a`'s size)
/// keeps its own bytes outside `d` and takes `a`'s inside; otherwise it becomes a copy
/// of `a`. Both are read with `a`'s geometry.
pub open spec fn synced_byte(a: ShmBuffer, b: Option<ShmBuffer>, d: Damage, r: int, c: int) -> u8 {
    match b {
        Some(bb) => if bb.spec_len() == a.spec_len() && !in_rect(
            r,
            c,
            d.x as int,
            d.y as int,
            d.w as int,
            d.h as int,
            a.bpp(),
        ) {
            bb.bytes@[cell(r, c, a.stride as int)]
        } else {
            a.bytes@[cell(r, c, a.stride as int)]
        },
        None => a.bytes@[cell(r, c, a.stride as int)],
    }
}

/// The byte at `(r, c)` of the frame that a partial update of the rectangle
/// `(x, y, w, h)` from `buf` (rows `stride` bytes apart) builds on the synchronised
/// back buffer: the new rectangle from `buf`, the synchronised byte elsewhere.
pub open spec fn patched_byte(
    a: ShmBuffer,
    b: Option<ShmBuffer>,
    d: Damage,
    x: u32,
    y: u32,
    w: u32,
    h: u32,
    stride: usize,
    buf: Seq<u8>,
    r: int,
    c: int,
) -> u8 {
    if in_rect(r, c, x as int, y as int, w as int, h as int, a.bpp()) {
        buf[cell(r - y, c - x * a.bpp(), stride as int)]
    } else {
        synced_byte(a, b, d, r, c)
    }
}

/// Whether `n` is the back buffer synchronised with `a` over `d`: `a`'s geometry and the
/// bytes of [`synced_byte`].
pub open spec fn is_synced_back(n: ShmBuffer, a: ShmBuffer, b: Option<ShmBuffer>, d: Damage) -> bool {
    &&& n.wf()
    &&& n.width == a.width
    &&& n.height == a.height
    &&& n.stride == a.stride
    &&& n.pixman == a.pixman
    &&& forall|r: int, c: int|
        0 <= r < a.height && 0 <= c < a.stride ==> #[trigger] n.bytes@[cell(r, c, a.stride as int)] == synced_byte(
            a,
            b,
            d,
            r,
            c,
        )
}

/// Whether `n` is the frame that a partial update builds from `a`, `b` and `d`: the
/// geometry of `a` and the bytes of [`patched_byte`].
pub open spec fn is_patched(
    n: ShmBuffer,
    a: ShmBuffer,
    b: Option<ShmBuffer>,
    d: Damage,
    x: u32,
    y: u32,
    w: u32,
    h: u32,
    stride: usize,
    buf: Seq<u8>,
) -> bool {
    &&& n.wf()
    &&& n.width == a.width
    &&& n.height == a.height
    &&& n.stride == a.stride
    &&& n.pixman == a.pixman
    &&& forall|r: int, c: int|
        0 <= r < a.height && 0 <= c < a.stride ==> #[trigger] n.bytes@[cell(r, c, a.stride as int)] == patched_byte(
            a,
            b,
            d,
            x,
            y,
            w,
            h,
            stride,
            buf,
            r,
            c,
        )
}

/// Double buffering is invisible: when the back buffer was in sync with the presented
/// frame `a` (equal outside the last damage `d`), the frame a partial update builds is
/// `a` with the rectangle replaced from `buf`, on every visible pixel.
pub proof fn law_partial_update_patches_presented_frame(
    n: ShmBuffer,
    a: ShmBuffer,
    b: Option<ShmBuffer>,
    d: Damage,
    x: u32,
    y: u32,
    w: u32,
    h: u32,
    stride: usize,
    buf: Seq<u8>,
)
    requires
        a.wf(),
        is_patched(n, a, b, d, x, y, w, h, stride, buf),
        match b {
            Some(bb) => bb.spec_len() == a.spec_len() ==> agrees_outside(a, bb, d),
            None => true,
        },
    ensures
        forall|r: int, c: int|
            0 <= r < a.height && 0 <= c < a.width * a.bpp() ==> #[trigger] n.bytes@[cell(r, c, a.stride as int)]
                == if in_rect(r, c, x as int, y as int, w as int, h as int, a.bpp()) {
                buf[cell(r - y, c - x * a.bpp(), stride as int)]
            } else {
                a.bytes@[cell(r, c, a.stride as int)]
            },
{
    assert forall|r: int, c: int| 0 <= r < a.height && 0 <= c < a.width * a.bpp() implies #[trigger] n.bytes@[cell(
        r,
        c,
        a.stride as int,
    )] == if in_rect(r, c, x as int, y as int, w as int, h as int, a.bpp()) {
        buf[cell(r - y, c - x * a.bpp(), stride as int)]
    } else {
        a.bytes@[cell(r, c, a.stride as int)]
    } by {
        assert(c < a.stride);
        assert(n.bytes@[cell(r, c, a.stride as int)] == patched_byte(a, b, d, x, y, w, h, stride, buf, r, c));
    }
}

/// A double-buffered frame chain over shared buffers: the active buffer is presented
/// while the back buffer receives the next frame, and the damage of the last update
/// tells which bytes the back buffer lacks.
pub struct Swapchain {
    buf0: Option<ShmBuffer>,
    buf1: Option<ShmBuffer>,
    tex0: bool,
    tex1: bool,
    active: usize,
    last_damage: Option<Damage>,
}

impl Swapchain {
    /// The buffer in slot `i`.
    closed spec fn slot(self, i: int) -> Option<ShmBuffer> {
        if i == 0 {
            self.buf0
        } else {
            self.buf1
        }
    }

    /// Whether a texture was built for the buffer in slot `i`.
    closed spec fn slot_texture(self, i: int) -> bool {
        if i == 0 {
            self.tex0
        } else {
            self.tex1
        }
    }

    /// The presented buffer.
    pub closed spec fn active_buf(self) -> Option<ShmBuffer> {
        self.slot(self.active as int)
    }

    /// The buffer that receives the next frame.
    pub closed spec fn back_buf(self) -> Option<ShmBuffer> {
        self.slot(1 - self.active)
    }

    /// Whether a texture was built for the presented buffer.
    pub closed spec fn active_texture(self) -> bool {
        self.slot_texture(self.active as int)
    }

    /// Whether a texture was built for the back buffer.
    pub closed spec fn back_texture(self) -> bool {
        self.slot_texture(1 - self.active)
    }

    /// The rectangle the last update wrote.
    pub closed spec fn damage(self) -> Option<Damage> {
        self.last_damage
    }

    /// Both buffers, when present, are well formed.
    pub closed spec fn wf(self) -> bool {
        &&& self.active < 2
        &&& (self.buf0 matches Some(b) ==> b.wf())
        &&& (self.buf1 matches Some(b) ==> b.wf())
    }

    /// Once a frame is presented, the last damage lies within it.
    pub open spec fn damage_fits(self) -> bool {
        match self.active_buf() {
            Some(a) => match self.damage() {
                Some(d) => d.x + d.w <= a.width && d.y + d.h <= a.height,
                None => false,
            },
            None => true,
        }
    }

    /// A back buffer that can be reused (one of the presented buffer's size) can take the
    /// last damage: the damage lies within the presented frame.
    pub open spec fn reusable_damage_fits(self) -> bool {
        match (self.active_buf(), self.back_buf(), self.damage()) {
            (Some(a), Some(b), Some(d)) => b.spec_len() == a.spec_len() ==> d.x + d.w <= a.width && d.y + d.h
                <= a.height,
            _ => true,
        }
    }

    /// The back buffer, when it has the presented buffer's size, differs from the
    /// presented buffer only within the last damage.
    pub open spec fn synced(self) -> bool {
        match (self.active_buf(), self.back_buf(), self.damage()) {
            (Some(a), Some(b), Some(d)) => b.spec_len() == a.spec_len() ==> agrees_outside(a, b, d),
            _ => true,
        }
    }

    /// The back buffer can be presented and leave the chain in sync: the last damage lies
    /// within it, and it differs from the presented buffer (when of the same size) only
    /// within that damage.
    pub open spec fn presentable(self) -> bool {
        match (self.back_buf(), self.damage()) {
            (Some(n), Some(d)) => {
                &&& d.x + d.w <= n.width
                &&& d.y + d.h <= n.height
                &&& match self.active_buf() {
                    Some(a) => a.spec_len() == n.spec_len() ==> agrees_outside(n, a, d),
                    None => true,
                }
            },
            _ => false,
        }
    }

    /// An empty chain: no buffer, no texture, no damage.
    pub fn new() -> (r: Swapchain)
        ensures
            r.wf(),
            r.active_buf() is None,
            r.back_buf() is None,
            !r.active_texture(),
            !r.back_texture(),
            r.damage() is None,
    {
        Swapchain { buf0: None, buf1: None, tex0: false, tex1: false, active: 0, last_damage: None }
    }

    /// The presented buffer.
    pub fn active_ref(&self) -> (r: Option<&ShmBuffer>)
        requires
            self.wf(),
        ensures
            r == (match self.active_buf() {
                Some(a) => Some(&a),
                None => None,
            }),
    {
        if self.active == 0 {
            self.buf0.as_ref()
        } else {
            self.buf1.as_ref()
        }
    }

    /// The back buffer.
    pub fn shadow_ref(&self) -> (r: Option<&ShmBuffer>)
        requires
            self.wf(),
        ensures
            r == (match self.back_buf() {
                Some(b) => Some(&b),
                None => None,
            }),
    {
        if self.active == 0 {
            self.buf1.as_ref()
        } else {
            self.buf0.as_ref()
        }
    }

    /// Takes the back buffer out of its slot.
    fn take_back(&mut self) -> (r: Option<ShmBuffer>)
        requires
            old(self).wf(),
        ensures
            final(self).wf(),
            r == old(self).back_buf(),
            final(self).back_buf() is None,
            final(self).active_buf() == old(self).active_buf(),
            final(self).active_texture() == old(self).active_texture(),
            final(self).back_texture() == old(self).back_texture(),
            final(self).damage() == old(self).damage(),
    {
        if self.active == 0 {
            self.buf1.take()
        } else {
            self.buf0.take()
        }
    }

    /// Puts `b` in the back slot.
    fn put_back(&mut self, b: Option<ShmBuffer>)
        requires
            old(self).wf(),
            b matches Some(bb) ==> bb.wf(),
        ensures
            final(self).wf(),
            final(self).back_buf() == b,
            final(self).active_buf() == old(self).active_buf(),
            final(self).active_texture() == old(self).active_texture(),
            final(self).back_texture() == old(self).back_texture(),
            final(self).damage() == old(self).damage(),
    {
        if self.active == 0 {
            self.buf1 = b;
        } else {
            self.buf0 = b;
        }
    }

    /// Makes the back buffer the presented one and the presented one the back buffer.
    pub fn swap_frame(&mut self)
        requires
            old(self).wf(),
        ensures
            final(self).wf(),
            final(self).active_buf() == old(self).back_buf(),
            final(self).back_buf() == old(self).active_buf(),
            final(self).active_texture() == old(self).back_texture(),
            final(self).back_texture() == old(self).active_texture(),
            final(self).damage() == old(self).damage(),
    {
        self.active = 1 - self.active;
    }

    /// Presents the back buffer after a texture was built for it ([`TextureStep::Build`]).
    pub fn present_new_texture(&mut self)
        requires
            old(self).wf(),
        ensures
            final(self).wf(),
            final(self).active_buf() == old(self).back_buf(),
            final(self).back_buf() == old(self).active_buf(),
            final(self).active_texture(),
            final(self).back_texture() == old(self).active_texture(),
            final(self).damage() == old(self).damage(),
            old(self).presentable() ==> final(self).synced() && final(self).damage_fits(),
    {
        self.swap_frame();
        if self.active == 0 {
            self.tex0 = true;
        } else {
            self.tex1 = true;
        }
    }

    /// Brings the back buffer up to date with the presented one over the last damage: a
    /// back buffer of the same size takes the presented geometry and the bytes of the
    /// damage; any other back buffer (or none) is replaced by a copy of the presented
    /// buffer. With no damage recorded there is nothing to bring over and the back buffer
    /// is left as it is. Returns whether a new buffer was created (its texture must be
    /// built), or `NoActiveBuffer` when nothing is presented.
    pub fn sync_active_to_shadow(&mut self) -> (r: Result<bool, SwapchainError>)
        requires
            old(self).wf(),
            old(self).reusable_damage_fits(),
        ensures
            final(self).wf(),
            final(self).active_buf() == old(self).active_buf(),
            final(self).active_texture() == old(self).active_texture(),
            final(self).back_texture() == old(self).back_texture(),
            final(self).damage() == old(self).damage(),
            old(self).active_buf() is None ==> r == Err::<bool, SwapchainError>(SwapchainError::NoActiveBuffer)
                && final(self).back_buf() == old(self).back_buf(),
            old(self).active_buf() is Some && old(self).damage() is None ==> r == Ok::<bool, SwapchainError>(false)
                && final(self).back_buf() == old(self).back_buf(),
            old(self).active_buf() matches Some(a) ==> (old(self).damage() is Some ==> r == Ok::<
                bool,
                SwapchainError,
            >(!(old(self).back_buf() matches Some(b) && b.spec_len() == a.spec_len()))),
            old(self).active_buf() matches Some(a) ==> (old(self).damage() matches Some(d) ==> (
                final(self).back_buf() matches Some(n) && is_synced_back(n, a, old(self).back_buf(), d)
            )),
    {
        let back = self.take_back();
        let new_back;
        let result;
        match self.active_ref() {
            None => {
                new_back = back;
                result = Err(SwapchainError::NoActiveBuffer);
            },
            Some(a) => match self.last_damage {
                None => {
                    new_back = back;
                    result = Ok(false);
                },
                Some(d) => {
                    let reuse = match &back {
                        Some(b) => b.is_reuseable(a.height, a.stride),
                        None => false,
                    };
                    if reuse {
                        let mut b = match back {
                            Some(b) => b,
                            None => a.try_clone(),
                        };
                        let ghost old_b = b;
                        b.width = a.width;
                        b.height = a.height;
                        b.stride = a.stride;
                        b.pixman = a.pixman;
                        proof {
                            assert(b.bytes@ == old_b.bytes@);
                        }
                        b.update_damage(d, a);
                        new_back = Some(b);
                        result = Ok(false);
                    } else {
                        new_back = Some(a.try_clone());
                        result = Ok(true);
                    }
                },
            },
        }
        self.put_back(new_back);
        result
    }

    /// Whether a partial update of the rectangle `(x, y, w, h)` in format `pixman` from a
    /// source of `len` bytes with rows `stride` bytes apart fits the presented frame, and
    /// whether a texture exists for the back buffer should it be reused.
    pub open spec fn partial_update_ok(self, x: u32, y: u32, w: u32, h: u32, stride: u32, pixman: Pixman, len: nat) -> bool {
        match self.active_buf() {
            Some(a) => {
                &&& pixman == a.pixman
                &&& x + w <= a.width
                &&& y + h <= a.height
                &&& h > 0 ==> (h - 1) * stride + w * a.bpp() <= len
                &&& match self.back_buf() {
                    Some(b) => b.spec_len() == a.spec_len() ==> self.back_texture(),
                    None => true,
                }
            },
            None => true,
        }
    }

    /// Whether `n` holds a full frame: the given geometry and format, and the bytes `buf`.
    pub open spec fn holds_frame(n: ShmBuffer, width: u32, height: u32, stride: usize, pixman: Pixman, buf: Seq<u8>) -> bool {
        &&& n.wf()
        &&& n.bytes@ == buf
        &&& n.width == width
        &&& n.height == height
        &&& n.stride == stride
        &&& n.pixman == pixman
    }

    /// A full-frame update: the whole frame is the new damage. A back buffer of the
    /// frame's size is refilled and presented at once, with its existing texture
    /// ([`TextureStep::Reuse`]); otherwise a new back buffer holds the frame and waits for
    /// its texture ([`TextureStep::Build`]), unless the format has no DRM FourCC.
    pub fn full_update_texture(&mut self, width: u32, height: u32, stride: u32, pixman: Pixman, buf: &[u8]) -> (r: Result<
        TextureStep,
        SwapchainError,
    >)
        requires
            old(self).wf(),
            buf@.len() == height * stride,
            width * spec_bytes_per_pixel(pixman.spec_raw()) <= stride,
            old(self).back_buf() matches Some(b) && b.spec_len() == height * stride ==> old(self).back_texture(),
        ensures
            final(self).wf(),
            final(self).damage() == Some(Damage { x: 0, y: 0, w: width, h: height }),
            old(self).back_buf() matches Some(b) && b.spec_len() == height * stride ==> {
                &&& r == Ok::<TextureStep, SwapchainError>(TextureStep::Reuse)
                &&& final(self).active_buf() matches Some(n) && Self::holds_frame(
                    n,
                    width,
                    height,
                    stride as usize,
                    pixman,
                    buf@,
                )
                &&& final(self).back_buf() == old(self).active_buf()
                &&& final(self).active_texture()
                &&& final(self).back_texture() == old(self).active_texture()
                &&& final(self).synced()
                &&& final(self).damage_fits()
            },
            !(old(self).back_buf() matches Some(b) && b.spec_len() == height * stride) ==> {
                &&& r == (match spec_pixman_to_fourcc(pixman.spec_raw()) {
                    Some(f) => Ok::<TextureStep, SwapchainError>(TextureStep::Build { fourcc: f }),
                    None => Err(SwapchainError::UnknownPixman),
                })
                &&& final(self).back_buf() matches Some(n) && Self::holds_frame(
                    n,
                    width,
                    height,
                    stride as usize,
                    pixman,
                    buf@,
                )
                &&& final(self).active_buf() == old(self).active_buf()
                &&& final(self).active_texture() == old(self).active_texture()
                &&& final(self).back_texture() == old(self).back_texture()
                &&& final(self).presentable()
            },
    {
        self.last_damage = Some(Damage { x: 0, y: 0, w: width, h: height });
        let stride = stride as usize;
        let back = self.take_back();
        let reuse = match &back {
            Some(b) => b.is_reuseable(height, stride),
            None => false,
        };
        if reuse {
            let mut b = match back {
                Some(b) => b,
                None => ShmBuffer::with_buf(width, height, stride, pixman, buf),
            };
            b.update_all(width, height, stride, pixman, buf);
            self.put_back(Some(b));
            self.swap_frame();
            return Ok(TextureStep::Reuse);
        }
        let n = ShmBuffer::with_buf(width, height, stride, pixman, buf);
        self.put_back(Some(n));
        match pixman_to_fourcc(pixman) {
            Ok(f) => Ok(TextureStep::Build { fourcc: f }),
            Err(_) => Err(SwapchainError::UnknownPixman),
        }
    }

    /// A partial update: the back buffer is synchronised with the presented frame, the
    /// rectangle `(x, y, width, height)` from `buf` (rows `stride` bytes apart) becomes
    /// the new damage and is written into it, and it is presented at once with its
    /// existing texture ([`TextureStep::Reuse`]), or, when synchronising created it, after
    /// its texture is built ([`TextureStep::Build`]). Fails with `NoActiveBuffer` before
    /// the first frame, and with `UnknownPixman` (after writing, before presenting) when
    /// the format has no DRM FourCC.
    pub fn partial_update_texture(
        &mut self,
        x: u32,
        y: u32,
        width: u32,
        height: u32,
        stride: u32,
        pixman: Pixman,
        buf: &[u8],
    ) -> (r: Result<TextureStep, SwapchainError>)
        requires
            old(self).wf(),
            old(self).active_buf() is Some ==> old(self).damage() is Some,
            old(self).reusable_damage_fits(),
            old(self).partial_update_ok(x, y, width, height, stride, pixman, buf@.len()),
        ensures
            final(self).wf(),
            old(self).active_buf() is None ==> {
                &&& r == Err::<TextureStep, SwapchainError>(SwapchainError::NoActiveBuffer)
                &&& final(self).active_buf() == old(self).active_buf()
                &&& final(self).back_buf() == old(self).back_buf()
                &&& final(self).damage() == old(self).damage()
            },
            old(self).active_buf() matches Some(a) ==> {
                let b = old(self).back_buf();
                let d = old(self).damage()->0;
                let reused = b matches Some(bb) && bb.spec_len() == a.spec_len();
                let fourcc = spec_pixman_to_fourcc(pixman.spec_raw());
                &&& final(self).damage() == Some(Damage { x, y, w: width, h: height })
                &&& match fourcc {
                    None => {
                        &&& r == Err::<TextureStep, SwapchainError>(SwapchainError::UnknownPixman)
                        &&& final(self).active_buf() == old(self).active_buf()
                        &&& final(self).back_buf() matches Some(n) && is_patched(
                            n,
                            a,
                            b,
                            d,
                            x,
                            y,
                            width,
                            height,
                            stride as usize,
                            buf@,
                        )
                    },
                    Some(f) => if reused {
                        &&& r == Ok::<TextureStep, SwapchainError>(TextureStep::Reuse)
                        &&& final(self).active_buf() matches Some(n) && is_patched(
                            n,
                            a,
                            b,
                            d,
                            x,
                            y,
                            width,
                            height,
                            stride as usize,
                            buf@,
                        )
                        &&& final(self).back_buf() == old(self).active_buf()
                        &&& final(self).active_texture()
                        &&& final(self).back_texture() == old(self).active_texture()
                        &&& old(self).synced() ==> final(self).synced() && final(self).damage_fits()
                    } else {
                        &&& r == Ok::<TextureStep, SwapchainError>(TextureStep::Build { fourcc: f })
                        &&& final(self).active_buf() == old(self).active_buf()
                        &&& final(self).back_buf() matches Some(n) && is_patched(
                            n,
                            a,
                            b,
                            d,
                            x,
                            y,
                            width,
                            height,
                            stride as usize,
                            buf@,
                        )
                        &&& final(self).active_texture() == old(self).active_texture()
                        &&& final(self).back_texture() == old(self).back_texture()
                        &&& old(self).synced() ==> final(self).presentable()
                    },
                }
            },
    {
        if self.active_ref().is_none() {
            return Err(SwapchainError::NoActiveBuffer);
        }
        let ghost a = self.active_buf()->0;
        let ghost b = self.back_buf();
        let ghost d = self.damage()->0;
        let need_refresh = match self.sync_active_to_shadow() {
            Ok(refresh) => refresh,
            Err(e) => return Err(e),
        };
        self.last_damage = Some(Damage { x, y, w: width, h: height });
        let back = self.take_back();
        let mut n = match back {
            Some(n) => n,
            None => {
                assert(false);
                ShmBuffer::with_buf(0, 0, 0, pixman, buf)
            },
        };
        let ghost synced = n;
        n.update_rect(x, y, width, height, stride as usize, buf);
        proof {
            assert forall|r: int, c: int| 0 <= r < a.height && 0 <= c < a.stride implies #[trigger] n.bytes@[cell(
                r,
                c,
                a.stride as int,
            )] == patched_byte(a, b, d, x, y, width, height, stride as usize, buf@, r, c) by {
                assert(synced.bytes@[cell(r, c, a.stride as int)] == synced_byte(a, b, d, r, c));
            }
        }
        self.put_back(Some(n));
        let f = match pixman_to_fourcc(pixman) {
            Ok(f) => f,
            Err(_) => return Err(SwapchainError::UnknownPixman),
        };
        if need_refresh {
            return Ok(TextureStep::Build { fourcc: f });
        }
        self.swap_frame();
        Ok(TextureStep::Reuse)
    }

    /// Returns `(width, height)` of the presented frame.
    pub fn resolution(&self) -> (r: Option<(u32, u32)>)
        requires
            self.wf(),
        ensures
            r == (match self.active_buf() {
                Some(a) => Some((a.width, a.height)),
                None => None,
            }),
    {
        match self.active_ref() {
            Some(a) => Some((a.width, a.height)),
            None => None,
        }
    }
}

} // verus!
