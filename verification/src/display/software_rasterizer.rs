use crate::display::error::Error;
use crate::display::pixman_4cc::pixman::{spec_bytes_per_pixel, Pixman};
use crate::display::pixman_4cc::{pixman_to_fourcc, spec_pixman_to_fourcc};
use vstd::prelude::*;

verus! {

/// Byte offset of column `c` of row `r` in a buffer of rows `stride` bytes apart.
pub open spec fn cell(r: int, c: int, stride: int) -> int {
    r * stride + c
}

pub(crate) proof fn lemma_cell_unique(r1: int, c1: int, r2: int, c2: int, s: int)
    requires
        0 <= c1 < s,
        0 <= c2 < s,
        cell(r1, c1, s) == cell(r2, c2, s),
    ensures
        r1 == r2,
        c1 == c2,
{
    assert(r1 == r2 && c1 == c2) by (nonlinear_arith)
        requires
            0 <= c1 < s,
            0 <= c2 < s,
            r1 * s + c1 == r2 * s + c2,
    ;
}

pub(crate) proof fn lemma_cell_bound(r: int, c: int, s: int, h: int)
    requires
        0 <= r < h,
        0 <= c < s,
    ensures
        0 <= cell(r, c, s) < h * s,
        cell(r, c, s) + (s - c) <= h * s,
{
    assert(0 <= r * s + c < h * s && r * s + s <= h * s) by (nonlinear_arith)
        requires
            0 <= r < h,
            0 <= c < s,
    ;
}

pub(crate) proof fn lemma_row_start_le(i: int, h: int, s: int)
    requires
        0 <= i < h,
        0 <= s,
    ensures
        i * s <= (h - 1) * s,
{
    assert(i * s <= (h - 1) * s) by (nonlinear_arith)
        requires
            0 <= i < h,
            0 <= s,
    ;
}

/// Whether byte `(r, c)` lies in the `w` x `h` pixel rectangle at `(x, y)`.
pub open spec fn in_rect(r: int, c: int, x: int, y: int, w: int, h: int, bpp: int) -> bool {
    y <= r < y + h && x * bpp <= c < (x + w) * bpp
}

/// CPU-side frame buffer acting as our master canvas.
/// Holds pixel data in system memory, supporting both full updates and partial rectangular patches.
#[derive(Debug)]
pub struct RasterSurface {
    buf: Vec<u8>,
    width: u32,
    height: u32,
    stride: u32,
    pixman: Pixman,
}

impl RasterSurface {
    /// The pixel bytes.
    pub closed spec fn bytes(self) -> Seq<u8> {
        self.buf@
    }

    /// Width in pixels.
    pub closed spec fn spec_width(self) -> u32 {
        self.width
    }

    /// Height in pixels.
    pub closed spec fn spec_height(self) -> u32 {
        self.height
    }

    /// Bytes from one row to the next.
    pub closed spec fn spec_stride(self) -> u32 {
        self.stride
    }

    /// The pixel format.
    pub closed spec fn spec_pixman(self) -> Pixman {
        self.pixman
    }

    /// Non-empty, with `height` rows of `stride` bytes, each row wide enough for `width` pixels.
    pub open spec fn wf(self) -> bool {
        &&& self.spec_width() > 0
        &&& self.spec_height() > 0
        &&& self.spec_stride() > 0
        &&& self.bytes().len() == self.spec_height() * self.spec_stride()
        &&& self.spec_width() * spec_bytes_per_pixel(self.spec_pixman().spec_raw()) <= self.spec_stride()
    }

    /// Wraps a full frame of `height` rows of `stride` bytes.
    pub fn new(width: u32, height: u32, stride: u32, pixman: Pixman, buf: Vec<u8>) -> (r: Self)
        requires
            width > 0,
            height > 0,
            stride > 0,
            buf@.len() == height * stride,
            width * spec_bytes_per_pixel(pixman.spec_raw()) <= stride,
        ensures
            r.wf(),
            r.bytes() == buf@,
            r.spec_width() == width,
            r.spec_height() == height,
            r.spec_stride() == stride,
            r.spec_pixman() == pixman,
    {
        RasterSurface { buf, width, height, stride, pixman }
    }

    /// The pixel bytes.
    pub fn buf(&self) -> (r: &Vec<u8>)
        ensures
            r@ == self.bytes(),
    {
        &self.buf
    }

    /// Width in pixels.
    pub fn width(&self) -> (r: u32)
        ensures
            r == self.spec_width(),
    {
        self.width
    }

    /// Height in pixels.
    pub fn height(&self) -> (r: u32)
        ensures
            r == self.spec_height(),
    {
        self.height
    }

    /// Bytes from one row to the next.
    pub fn stride(&self) -> (r: u32)
        ensures
            r == self.spec_stride(),
    {
        self.stride
    }

    /// The pixel format.
    pub fn pixman(&self) -> (r: Pixman)
        ensures
            r == self.spec_pixman(),
    {
        self.pixman
    }

    /// Applies a rectangular patch: copies the `w` x `h` pixel rectangle at `(x, y)` from
    /// `buf`, whose rows are `stride` bytes apart, over the frame; every other byte keeps
    /// its value.
    pub fn update_rect(&mut self, x: u32, y: u32, w: u32, h: u32, stride: u32, buf: Vec<u8>)
        requires
            old(self).wf(),
            w > 0,
            h > 0,
            stride > 0,
            x + w <= old(self).spec_width(),
            y + h <= old(self).spec_height(),
            (h - 1) * stride + w * spec_bytes_per_pixel(old(self).spec_pixman().spec_raw()) <= buf@.len(),
        ensures
            final(self).wf(),
            final(self).spec_width() == old(self).spec_width(),
            final(self).spec_height() == old(self).spec_height(),
            final(self).spec_stride() == old(self).spec_stride(),
            final(self).spec_pixman() == old(self).spec_pixman(),
            final(self).bytes().len() == old(self).bytes().len(),
            forall|r: int, c: int|
                0 <= r < old(self).spec_height() && 0 <= c < old(self).spec_stride() ==>
                #[trigger] final(self).bytes()[cell(r, c, old(self).spec_stride() as int)] == if in_rect(
                    r,
                    c,
                    x as int,
                    y as int,
                    w as int,
                    h as int,
                    spec_bytes_per_pixel(old(self).spec_pixman().spec_raw()),
                ) {
                    buf@[cell(r - y, c - x * spec_bytes_per_pixel(old(self).spec_pixman().spec_raw()), stride as int)]
                } else {
                    old(self).bytes()[cell(r, c, old(self).spec_stride() as int)]
                },
    {
        let bpp = self.pixman.bytes_per_pixel();
        let ghost bppi: int = bpp as int;
        let ghost old_buf = self.buf@;
        let ghost height: int = self.height as int;
        let ghost ds: int = self.stride as int;
        let ghost ss: int = stride as int;
        let ghost xb: int = x * bppi;
        let dst_stride = self.stride as usize;
        let src_stride = stride as usize;
        proof {
            assert(w * bppi <= self.width * bppi) by (nonlinear_arith)
                requires
                    w <= self.width,
                    bppi >= 0,
            ;
            assert(x * bppi + w * bppi == (x + w) * bppi) by (nonlinear_arith);
            assert((x + w) * bppi <= self.width * bppi) by (nonlinear_arith)
                requires
                    x + w <= self.width,
                    bppi >= 0,
            ;
        }
        let row_bytes = w as usize * bpp;
        let col0 = x as usize * bpp;
        let total = self.buf.len();
        let src_total = buf.len();
        let mut i: usize = 0;
        while i < h as usize
            invariant
                0 <= i <= h,
                bpp == bppi,
                bppi == spec_bytes_per_pixel(self.pixman.spec_raw()),
                self.width == old(self).width,
                self.height == old(self).height,
                self.stride == old(self).stride,
                self.pixman == old(self).pixman,
                old(self).wf(),
                height == self.height,
                ds == self.stride,
                ss == stride,
                dst_stride == ds,
                src_stride == ss,
                xb == x * bppi,
                col0 == xb,
                row_bytes == w * bppi,
                xb + row_bytes <= ds,
                y + h <= height,
                (h - 1) * ss + w * bppi <= buf@.len(),
                old_buf == old(self).buf@,
                self.buf@.len() == old_buf.len(),
                old_buf.len() == height * ds,
                total == old_buf.len(),
                src_total == buf@.len(),
                forall|r: int, c: int|
                    0 <= r < height && 0 <= c < ds ==> #[trigger] self.buf@[cell(r, c, ds)] == if in_rect(
                        r,
                        c,
                        x as int,
                        y as int,
                        w as int,
                        i as int,
                        bppi,
                    ) {
                        buf@[cell(r - y, c - xb, ss)]
                    } else {
                        old_buf[cell(r, c, ds)]
                    },
            decreases h - i,
        {
            let row = y as usize + i;
            proof {
                lemma_cell_bound(row as int, 0, ds, height);
                lemma_row_start_le(i as int, h as int, ss);
            }
            let dst_start = row * dst_stride + col0;
            let src_start = i * src_stride;
            let mut j: usize = 0;
            while j < row_bytes
                invariant
                    0 <= j <= row_bytes,
                    0 <= i < h,
                    row == y + i,
                    row < height,
                    dst_start == cell(row as int, xb, ds),
                    src_start == i * ss,
                    i * ss <= (h - 1) * ss,
                    bpp == bppi,
                    self.width == old(self).width,
                    self.height == old(self).height,
                    self.stride == old(self).stride,
                    self.pixman == old(self).pixman,
                    height == self.height,
                    ds == self.stride,
                    ss == stride,
                    xb == x * bppi,
                    row_bytes == w * bppi,
                    xb + row_bytes <= ds,
                    (h - 1) * ss + w * bppi <= buf@.len(),
                    self.buf@.len() == old_buf.len(),
                    old_buf.len() == height * ds,
                    total == old_buf.len(),
                    src_total == buf@.len(),
                    forall|r: int, c: int|
                        0 <= r < height && 0 <= c < ds ==> #[trigger] self.buf@[cell(r, c, ds)] == if in_rect(
                            r,
                            c,
                            x as int,
                            y as int,
                            w as int,
                            i as int,
                            bppi,
                        ) || (r == row && xb <= c < xb + j) {
                            buf@[cell(r - y, c - xb, ss)]
                        } else {
                            old_buf[cell(r, c, ds)]
                        },
                decreases row_bytes - j,
            {
                proof {
                    lemma_cell_bound(row as int, xb + j, ds, height);
                }
                let v = buf[src_start + j];
                let ghost d: int = dst_start + j;
                let ghost before = self.buf@;
                self.buf.set(dst_start + j, v);
                proof {
                    assert(d == cell(row as int, xb + j, ds));
                    assert(v == buf@[cell(row - y, (xb + j) - xb, ss)]);
                    assert forall|r: int, c: int| 0 <= r < height && 0 <= c < ds implies #[trigger] self.buf@[cell(
                        r,
                        c,
                        ds,
                    )] == if in_rect(r, c, x as int, y as int, w as int, i as int, bppi) || (r == row && xb <= c
                        < xb + j + 1) {
                        buf@[cell(r - y, c - xb, ss)]
                    } else {
                        old_buf[cell(r, c, ds)]
                    } by {
                        lemma_cell_bound(r, c, ds, height);
                        if cell(r, c, ds) == d {
                            lemma_cell_unique(r, c, row as int, xb + j, ds);
                        } else {
                            assert(self.buf@[cell(r, c, ds)] == before[cell(r, c, ds)]);
                            if r == row && c == xb + j {
                                assert(false);
                            }
                        }
                    }
                }
                j = j + 1;
            }
            proof {
                assert forall|r: int, c: int| 0 <= r < height && 0 <= c < ds implies #[trigger] self.buf@[cell(
                    r,
                    c,
                    ds,
                )] == if in_rect(r, c, x as int, y as int, w as int, i + 1, bppi) {
                    buf@[cell(r - y, c - xb, ss)]
                } else {
                    old_buf[cell(r, c, ds)]
                } by {
                    assert((x + w) * bppi == xb + row_bytes) by (nonlinear_arith)
                        requires
                            xb == x * bppi,
                            row_bytes == w * bppi,
                    ;
                }
            }
            i = i + 1;
        }
        proof {
            assert(old_buf.len() == old(self).bytes().len());
        }
    }
}

/// The smaller of two numbers.
pub open spec fn spec_min(a: int, b: int) -> int {
    if a <= b {
        a
    } else {
        b
    }
}

/// Whether a partial update of `w` x `h` pixels at `(x, y)` fits its source buffer once
/// clipped to `surface`: the clipped rows, `stride` bytes apart, lie within `len` bytes.
pub open spec fn clipped_source_fits(surface: RasterSurface, x: u32, y: u32, w: u32, h: u32, stride: u32, len: nat) -> bool {
    let cw = spec_min(w as int, surface.spec_width() - x);
    let ch = spec_min(h as int, surface.spec_height() - y);
    (ch - 1) * stride + cw * spec_bytes_per_pixel(surface.spec_pixman().spec_raw()) <= len
}

/// The software rendering backend: the current frame kept in system memory.
///
/// The presentation texture is built from [`SoftwareRasterizer::surface`] after each
/// successful update.
#[derive(Debug)]
pub struct SoftwareRasterizer {
    surface: Option<RasterSurface>,
}

impl SoftwareRasterizer {
    /// The current frame, if a scanout has set one up.
    pub closed spec fn spec_surface(self) -> Option<RasterSurface> {
        self.surface
    }

    /// The frame, when present, is well formed.
    pub open spec fn wf(self) -> bool {
        self.spec_surface() matches Some(s) ==> s.wf()
    }

    /// Whether the source buffer of a partial update holds every row that the update
    /// copies once clipped to the frame.
    pub open spec fn partial_update_fits(self, x: u32, y: u32, w: u32, h: u32, stride: u32, pixman: Pixman, len: nat) -> bool {
        match self.spec_surface() {
            Some(s) => s.spec_pixman() == pixman && x < s.spec_width() && y < s.spec_height()
                ==> clipped_source_fits(s, x, y, w, h, stride, len),
            None => true,
        }
    }

    /// Computes [`SoftwareRasterizer::partial_update_fits`] for a source buffer of `len`
    /// bytes, so that a caller can test it before a partial update.
    pub fn check_partial_update(&self, x: u32, y: u32, w: u32, h: u32, stride: u32, pixman: Pixman, len: usize) -> (r: bool)
        requires
            self.wf(),
            w > 0,
            h > 0,
        ensures
            r == self.partial_update_fits(x, y, w, h, stride, pixman, len as nat),
    {
        match &self.surface {
            None => true,
            Some(s) => {
                if s.pixman != pixman || x >= s.width || y >= s.height {
                    return true;
                }
                let cw: u64 = if (w as u64) <= (s.width - x) as u64 { w as u64 } else { (s.width - x) as u64 };
                let ch: u64 = if (h as u64) <= (s.height - y) as u64 { h as u64 } else { (s.height - y) as u64 };
                let bpp = pixman.bytes_per_pixel() as u64;
                proof {
                    assert((ch - 1) * stride <= 0xFFFF_FFFFu64 * 0xFFFF_FFFFu64 && cw * bpp <= 0xFFFF_FFFFu64 * 255)
                        by (nonlinear_arith)
                        requires
                            1 <= ch <= 0xFFFF_FFFFu64,
                            stride <= 0xFFFF_FFFFu64,
                            cw <= 0xFFFF_FFFFu64,
                            bpp <= 255,
                    ;
                }
                let need: u128 = (ch - 1) as u128 * stride as u128 + cw as u128 * bpp as u128;
                need <= len as u128
            },
        }
    }

    /// A rasterizer with no frame.
    pub fn new() -> (r: Self)
        ensures
            r.wf(),
            r.spec_surface() is None,
    {
        SoftwareRasterizer { surface: None }
    }

    /// The current frame.
    pub fn surface(&self) -> (r: Option<&RasterSurface>)
        ensures
            r == (match self.spec_surface() {
                Some(s) => Some(&s),
                None => None,
            }),
    {
        match &self.surface {
            Some(s) => Some(s),
            None => None,
        }
    }

    /// Returns the current resolution as `(width, height)`, `(0, 0)` without a frame.
    pub fn resolution(&self) -> (r: (u32, u32))
        ensures
            r == (match self.spec_surface() {
                Some(s) => (s.spec_width(), s.spec_height()),
                None => (0u32, 0u32),
            }),
    {
        match &self.surface {
            Some(s) => (s.width, s.height),
            None => (0, 0),
        }
    }

    /// Handles a full-frame update (Scanout): the frame becomes `buf`, unless the pixman
    /// format has no DRM FourCC, in which case nothing changes.
    pub fn full_update_texture(&mut self, w: u32, h: u32, stride: u32, pixman: Pixman, buf: Vec<u8>) -> (r: Result<
        (),
        Error,
    >)
        requires
            old(self).wf(),
            w > 0,
            h > 0,
            stride > 0,
            buf@.len() == h * stride,
            w * spec_bytes_per_pixel(pixman.spec_raw()) <= stride,
        ensures
            final(self).wf(),
            spec_pixman_to_fourcc(pixman.spec_raw()) is None ==> {
                &&& r == Err::<(), Error>(Error::UnknownPixman(crate::display::pixman_4cc::UnknownPixmanFormat))
                &&& final(self).spec_surface() == old(self).spec_surface()
            },
            spec_pixman_to_fourcc(pixman.spec_raw()) is Some ==> {
                &&& r is Ok
                &&& final(self).spec_surface() matches Some(s) && s.bytes() == buf@ && s.spec_width() == w
                    && s.spec_height() == h && s.spec_stride() == stride && s.spec_pixman() == pixman
            },
    {
        if let Err(e) = pixman_to_fourcc(pixman) {
            return Err(Error::UnknownPixman(e));
        }
        let surface = RasterSurface::new(w, h, stride, pixman, buf);
        self.surface = Some(surface);
        Ok(())
    }

    /// Handles a partial update (Update): clips the `w` x `h` rectangle at `(x, y)` to
    /// the frame and patches it from `buf`.
    ///
    /// Fails with `NoStagedBuffer` without a frame, `PartialUpdatePixmanNotMatch` when
    /// the format differs from the frame's, and `PartialUpdateOffScreen` when `(x, y)`
    /// lies outside the frame; the frame is then unchanged.
    pub fn partial_update_texture(
        &mut self,
        x: u32,
        y: u32,
        w: u32,
        h: u32,
        stride: u32,
        pixman: Pixman,
        buf: Vec<u8>,
    ) -> (r: Result<(), Error>)
        requires
            old(self).wf(),
            w > 0,
            h > 0,
            stride > 0,
            old(self).partial_update_fits(x, y, w, h, stride, pixman, buf@.len()),
        ensures
            final(self).wf(),
            match old(self).spec_surface() {
                None => r == Err::<(), Error>(Error::NoStagedBuffer) && final(self).spec_surface() == old(
                    self,
                ).spec_surface(),
                Some(s) => if s.spec_pixman() != pixman {
                    r == Err::<(), Error>(Error::PartialUpdatePixmanNotMatch) && final(self).spec_surface() == old(
                        self,
                    ).spec_surface()
                } else if x >= s.spec_width() || y >= s.spec_height() {
                    r == Err::<(), Error>(Error::PartialUpdateOffScreen) && final(self).spec_surface() == old(
                        self,
                    ).spec_surface()
                } else {
                    let cw = spec_min(w as int, s.spec_width() - x);
                    let ch = spec_min(h as int, s.spec_height() - y);
                    let bpp = spec_bytes_per_pixel(pixman.spec_raw());
                    &&& r is Ok
                    &&& final(self).spec_surface() matches Some(t) && t.spec_width() == s.spec_width()
                        && t.spec_height() == s.spec_height() && t.spec_stride() == s.spec_stride()
                        && t.spec_pixman() == pixman && t.bytes().len() == s.bytes().len() && forall|
                        rr: int,
                        c: int,
                    |
                        0 <= rr < s.spec_height() && 0 <= c < s.spec_stride() ==> #[trigger] t.bytes()[cell(
                            rr,
                            c,
                            s.spec_stride() as int,
                        )] == if in_rect(rr, c, x as int, y as int, cw, ch, bpp) {
                            buf@[cell(rr - y, c - x * bpp, stride as int)]
                        } else {
                            s.bytes()[cell(rr, c, s.spec_stride() as int)]
                        }
                },
            },
    {
        let surface = match &mut self.surface {
            Some(s) => s,
            None => return Err(Error::NoStagedBuffer),
        };
        if pixman != surface.pixman {
            return Err(Error::PartialUpdatePixmanNotMatch);
        }
        let aw = surface.width;
        let ah = surface.height;
        if x >= aw || y >= ah {
            return Err(Error::PartialUpdateOffScreen);
        }
        let cw = if w <= aw - x { w } else { aw - x };
        let ch = if h <= ah - y { h } else { ah - y };
        surface.update_rect(x, y, cw, ch, stride, buf);
        Ok(())
    }
}

} // verus!
