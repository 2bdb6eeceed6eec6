use crate::display::pixman_4cc::{sanitize_opaque_fourcc, spec_sanitize_opaque, FourCC};
use crate::display::udma::Damage;
use arrayvec::ArrayVec;
use vstd::prelude::*;

verus! {

/// Most planes a DMA-BUF scanout can carry.
pub const MAX_PLANES: usize = 4;

/// Geometry of a staged DMA-BUF frame, normalised from both scanout protocols: the
/// physical buffer (`backing_*`, used to build the texture) and the visible viewport
/// within it (`crop_*`, used for presentation and damage mapping). Sizes are non-zero.
#[derive(Debug, Clone, Copy, PartialEq, Eq, Structural)]
pub struct DmabufGeometry {
    pub backing_width: u32,
    pub backing_height: u32,
    pub crop_x: u32,
    pub crop_y: u32,
    pub crop_width: u32,
    pub crop_height: u32,
}

/// What committing a DMA-BUF update requires of the texture.
#[derive(Debug, Clone, Copy, PartialEq, Eq, Structural)]
pub enum CommitPlan {
    /// Nothing to do: no frame, or damage outside the buffer.
    Skip,
    /// The staged frame became active: rebuild the texture from it.
    PageFlip,
    /// Update the current texture in place over the damaged rectangle (buffer coordinates).
    InPlace(Damage),
}

/// `a + b` clamped to `u32::MAX`.
pub open spec fn spec_sat_add_u32(a: u32, b: u32) -> u32 {
    if a + b > u32::MAX {
        u32::MAX
    } else {
        (a + b) as u32
    }
}

/// The damage rectangle `(x, y, w, h)` of the viewport mapped to buffer coordinates by
/// the crop offset, if it stays within the buffer.
pub open spec fn spec_map_damage(g: DmabufGeometry, x: u32, y: u32, w: u32, h: u32) -> Option<Damage> {
    let dx = spec_sat_add_u32(x, g.crop_x);
    let dy = spec_sat_add_u32(y, g.crop_y);
    if spec_sat_add_u32(dx, w) > g.backing_width || spec_sat_add_u32(dy, h) > g.backing_height {
        None
    } else {
        Some(Damage { x: dx, y: dy, width: w, height: h })
    }
}

/// Maps viewport damage `(x, y, w, h)` to buffer coordinates by adding the crop offset;
/// `None` when the mapped rectangle exceeds the buffer.
pub fn map_damage(g: &DmabufGeometry, x: u32, y: u32, w: u32, h: u32) -> (r: Option<Damage>)
    ensures
        r == spec_map_damage(*g, x, y, w, h),
{
    let dx = x.saturating_add(g.crop_x);
    let dy = y.saturating_add(g.crop_y);
    if dx.saturating_add(w) > g.backing_width || dy.saturating_add(h) > g.backing_height {
        None
    } else {
        Some(Damage { x: dx, y: dy, width: w, height: h })
    }
}

/// Damage maps to the buffer exactly when it fits: the rectangle `(x, y, w, h)` of the
/// viewport, moved by the crop offset, is accepted if and only if it ends within the
/// buffer's width and height, and then it is that moved rectangle. (A buffer as wide or
/// as tall as `u32::MAX`, where positions saturate, is left out.)
pub proof fn law_map_damage_accepts_what_fits(g: DmabufGeometry, x: u32, y: u32, w: u32, h: u32)
    requires
        g.backing_width < u32::MAX,
        g.backing_height < u32::MAX,
    ensures
        spec_map_damage(g, x, y, w, h) is Some <==> (x + g.crop_x + w <= g.backing_width && y + g.crop_y + h
            <= g.backing_height),
        spec_map_damage(g, x, y, w, h) matches Some(d) ==> d.x == x + g.crop_x && d.y == y + g.crop_y && d.width
            == w && d.height == h,
{
}

/// Damage over the whole visible frame is always mapped: when the viewport lies within
/// the buffer, the damage `(0, 0, crop_width, crop_height)` becomes the viewport itself in
/// buffer coordinates.
pub proof fn law_full_frame_damage_maps_to_viewport(g: DmabufGeometry)
    requires
        g.crop_x + g.crop_width <= g.backing_width,
        g.crop_y + g.crop_height <= g.backing_height,
    ensures
        spec_map_damage(g, 0, 0, g.crop_width, g.crop_height) == Some(
            Damage { x: g.crop_x, y: g.crop_y, width: g.crop_width, height: g.crop_height },
        ),
{
}

/// After a single-plane scanout of `w` x `h` is flipped in, a commit of damage over the
/// whole frame updates it in place over the whole buffer: with the staged frame active
/// and nothing pending, [`GpuPassthrough::commit_update`] of `(0, 0, w, h)` plans
/// `InPlace` of `(0, 0, w, h)`.
pub proof fn law_single_plane_full_damage_in_place(active: Option<DmabufState>, w: u32, h: u32)
    requires
        opt_model(active) matches Some(m) && m.geometry == (DmabufGeometry {
            backing_width: w,
            backing_height: h,
            crop_x: 0,
            crop_y: 0,
            crop_width: w,
            crop_height: h,
        }),
    ensures
        (match active {
            None => CommitPlan::Skip,
            Some(a) => match spec_map_damage(a.geometry, 0, 0, w, h) {
                Some(d) => CommitPlan::InPlace(d),
                None => CommitPlan::Skip,
            },
        }) == CommitPlan::InPlace(Damage { x: 0, y: 0, width: w, height: h }),
{
}

/// One DMA-BUF plane: its file descriptor, row stride and byte offset.
pub struct PlaneDesc {
    pub fd: zvariant::OwnedFd,
    pub stride: u32,
    pub offset: u64,
}

/// The layout of one plane: row stride and byte offset.
#[derive(Debug, Clone, Copy, PartialEq, Eq, Structural)]
pub struct PlaneLayout {
    pub stride: u32,
    pub offset: u64,
}

/// The layouts of the planes an `ArrayVec` of planes holds, in order.
pub uninterp spec fn plane_layouts(v: ArrayVec<PlaneDesc, 4>) -> Seq<PlaneLayout>;

/// `arrayvec::ArrayVec::new`: an empty vector of capacity 4.
#[verifier::external_body]
fn planes_new() -> (r: ArrayVec<PlaneDesc, 4>)
    ensures
        plane_layouts(r) == Seq::<PlaneLayout>::empty(),
{
    ArrayVec::new()
}

/// `arrayvec::ArrayVec::push`: appends a plane at the end. The source panics on a full
/// vector, so there must be room.
#[verifier::external_body]
fn planes_push(v: &mut ArrayVec<PlaneDesc, 4>, p: PlaneDesc)
    requires
        plane_layouts(*old(v)).len() < 4,
    ensures
        plane_layouts(*final(v)) == plane_layouts(*old(v)).push(PlaneLayout { stride: p.stride, offset: p.offset }),
{
    v.push(p)
}

/// A staged or active DMA-BUF frame: its planes, its format with alpha sanitised away,
/// the DRM modifier, and its geometry.
pub struct DmabufState {
    pub planes: ArrayVec<PlaneDesc, 4>,
    pub sanitized_fourcc: FourCC,
    pub modifier: u64,
    pub geometry: DmabufGeometry,
}

/// What the contracts see of a frame: everything but the file descriptors.
pub struct FrameModel {
    pub planes: Seq<PlaneLayout>,
    pub fourcc: FourCC,
    pub modifier: u64,
    pub geometry: DmabufGeometry,
}

impl DmabufState {
    /// The frame without its file descriptors.
    pub open spec fn model(&self) -> FrameModel {
        FrameModel {
            planes: plane_layouts(self.planes),
            fourcc: self.sanitized_fourcc,
            modifier: self.modifier,
            geometry: self.geometry,
        }
    }
}

/// The model of an optional frame.
pub open spec fn opt_model(f: Option<DmabufState>) -> Option<FrameModel> {
    match f {
        Some(s) => Some(s.model()),
        None => None,
    }
}

/// The plane layouts that a multi-plane scanout keeps: the first planes, at most
/// [`MAX_PLANES`], for which a descriptor, a stride and an offset were all given.
pub open spec fn spec_kept_planes(n_fds: nat, strides: Seq<u32>, offsets: Seq<u64>) -> Seq<PlaneLayout> {
    let n = if n_fds <= strides.len() { n_fds as int } else { strides.len() as int };
    let n = if n <= offsets.len() { n } else { offsets.len() as int };
    let n = if n <= 4 { n } else { 4 };
    Seq::new(n as nat, |i: int| PlaneLayout { stride: strides[i], offset: offsets[i] })
}

/// GPU-backed scanout state for DMA-BUF paths.
///
/// Prepare (`Scanout*`) only stages a frame in `pending`; commit (`UpdateDMABUF`)
/// promotes it to `active`, so a burst of scanouts collapses into a single build.
pub struct GpuPassthrough {
    pub active: Option<DmabufState>,
    pub pending: Option<DmabufState>,
}

impl GpuPassthrough {
    /// No frame staged or active.
    pub fn new() -> (r: Self)
        ensures
            r.active is None,
            r.pending is None,
    {
        GpuPassthrough { active: None, pending: None }
    }

    /// Stages a single-plane frame (backing = crop): plane `fd` at offset 0 with `stride`.
    pub fn stage_single_plane(&mut self, fd: zvariant::OwnedFd, w: u32, h: u32, stride: u32, fourcc: FourCC, modifier: u64)
        ensures
            opt_model(final(self).active) == opt_model(old(self).active),
            opt_model(final(self).pending) == Some(
                FrameModel {
                    planes: seq![PlaneLayout { stride, offset: 0 }],
                    fourcc: spec_sanitize_opaque(fourcc),
                    modifier,
                    geometry: DmabufGeometry {
                        backing_width: w,
                        backing_height: h,
                        crop_x: 0,
                        crop_y: 0,
                        crop_width: w,
                        crop_height: h,
                    },
                },
            ),
    {
        let mut planes = planes_new();
        planes_push(&mut planes, PlaneDesc { fd, stride, offset: 0 });
        proof {
            assert(Seq::<PlaneLayout>::empty().push(PlaneLayout { stride, offset: 0 }) =~= seq![
                PlaneLayout { stride, offset: 0 },
            ]);
        }
        self.pending = Some(
            DmabufState {
                planes,
                sanitized_fourcc: sanitize_opaque_fourcc(fourcc),
                modifier,
                geometry: DmabufGeometry {
                    backing_width: w,
                    backing_height: h,
                    crop_x: 0,
                    crop_y: 0,
                    crop_width: w,
                    crop_height: h,
                },
            },
        );
    }

    /// Stages a multi-plane frame with its own buffer size and visible viewport. The
    /// planes kept are those of [`spec_kept_planes`].
    pub fn stage_multi_plane(
        &mut self,
        fds: Vec<zvariant::OwnedFd>,
        crop_x: u32,
        crop_y: u32,
        crop_w: u32,
        crop_h: u32,
        backing_w: u32,
        backing_h: u32,
        strides: &Vec<u32>,
        offsets: &Vec<u64>,
        fourcc: FourCC,
        modifier: u64,
    )
        ensures
            opt_model(final(self).active) == opt_model(old(self).active),
            opt_model(final(self).pending) == Some(
                FrameModel {
                    planes: spec_kept_planes(fds@.len(), strides@, offsets@),
                    fourcc: spec_sanitize_opaque(fourcc),
                    modifier,
                    geometry: DmabufGeometry {
                        backing_width: backing_w,
                        backing_height: backing_h,
                        crop_x,
                        crop_y,
                        crop_width: crop_w,
                        crop_height: crop_h,
                    },
                },
            ),
    {
        let mut n = fds.len();
        if strides.len() < n {
            n = strides.len();
        }
        if offsets.len() < n {
            n = offsets.len();
        }
        if MAX_PLANES < n {
            n = MAX_PLANES;
        }
        let ghost kept = spec_kept_planes(fds@.len(), strides@, offsets@);
        let mut fds = fds;
        let ghost all_fds = fds@;
        let mut planes = planes_new();
        let mut i: usize = 0;
        while i < n
            invariant
                n <= 4,
                n <= strides@.len(),
                n <= offsets@.len(),
                n <= all_fds.len(),
                kept.len() == n,
                forall|j: int| 0 <= j < n ==> #[trigger] kept[j] == (PlaneLayout { stride: strides@[j], offset: offsets@[j] }),
                i <= n,
                fds@ == all_fds.subrange(i as int, all_fds.len() as int),
                plane_layouts(planes) == kept.subrange(0, i as int),
            decreases n - i,
        {
            let fd = fds.remove(0);
            planes_push(&mut planes, PlaneDesc { fd, stride: strides[i], offset: offsets[i] });
            proof {
                assert(kept.subrange(0, i + 1) =~= kept.subrange(0, i as int).push(kept[i as int]));
                assert(fds@ =~= all_fds.subrange(i + 1, all_fds.len() as int));
            }
            i = i + 1;
        }
        proof {
            assert(kept.subrange(0, n as int) =~= kept);
        }
        self.pending = Some(
            DmabufState {
                planes,
                sanitized_fourcc: sanitize_opaque_fourcc(fourcc),
                modifier,
                geometry: DmabufGeometry {
                    backing_width: backing_w,
                    backing_height: backing_h,
                    crop_x,
                    crop_y,
                    crop_width: crop_w,
                    crop_height: crop_h,
                },
            },
        );
    }

    /// Commits on `UpdateDMABUF(x, y, w, h)`: a staged frame becomes active (page flip);
    /// otherwise the active frame is updated in place over the damage mapped to buffer
    /// coordinates, or nothing happens without an active frame or when the damage leaves
    /// the buffer.
    pub fn commit_update(&mut self, x: u32, y: u32, w: u32, h: u32) -> (r: CommitPlan)
        ensures
            final(self).pending is None,
            old(self).pending is Some ==> r == CommitPlan::PageFlip && opt_model(final(self).active) == opt_model(
                old(self).pending,
            ),
            old(self).pending is None ==> opt_model(final(self).active) == opt_model(old(self).active) && r == (
            match old(self).active {
                None => CommitPlan::Skip,
                Some(a) => match spec_map_damage(a.geometry, x, y, w, h) {
                    Some(d) => CommitPlan::InPlace(d),
                    None => CommitPlan::Skip,
                },
            }),
    {
        if self.pending.is_some() {
            self.active = self.pending.take();
            return CommitPlan::PageFlip;
        }
        match &self.active {
            None => CommitPlan::Skip,
            Some(a) => match map_damage(&a.geometry, x, y, w, h) {
                Some(d) => CommitPlan::InPlace(d),
                None => CommitPlan::Skip,
            },
        }
    }

    /// Returns the visible resolution `(width, height)` of the active frame, `(0, 0)` without one.
    pub fn resolution(&self) -> (r: (u32, u32))
        ensures
            r == (match self.active {
                Some(a) => (a.geometry.crop_width, a.geometry.crop_height),
                None => (0u32, 0u32),
            }),
    {
        match &self.active {
            Some(a) => (a.geometry.crop_width, a.geometry.crop_height),
            None => (0, 0),
        }
    }
}

} // verus!
