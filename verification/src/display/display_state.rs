use crate::dbus::listener::{Blob, Event};
use crate::display::error::{BackendNotReady, Error};
use vstd::prelude::*;

verus! {

/// Which parts of the view need repainting.
#[derive(Debug, Clone, Copy, PartialEq, Eq, Structural)]
pub struct DirtyFlags {
    pub frame: bool,
    pub cursor: bool,
}

impl Default for DirtyFlags {
    fn default() -> (r: Self)
        ensures
            r == (DirtyFlags { frame: false, cursor: false }),
    {
        DirtyFlags { frame: false, cursor: false }
    }
}

impl DirtyFlags {
    /// Whether anything needs repainting.
    pub fn any(&self) -> (r: bool)
        ensures
            r == (self.frame || self.cursor),
    {
        self.frame || self.cursor
    }

    /// Merges other into self.
    pub fn merge(&mut self, other: DirtyFlags)
        ensures
            *final(self) == (DirtyFlags { frame: old(self).frame || other.frame, cursor: old(self).cursor || other.cursor }),
    {
        self.frame = self.frame || other.frame;
        self.cursor = self.cursor || other.cursor;
    }

    /// Sets frame and cursor as dirty.
    pub fn set_frame_and_cursor_dirty(&mut self)
        ensures
            *final(self) == (DirtyFlags { frame: true, cursor: true }),
    {
        self.frame = true;
        self.cursor = true;
    }

    /// Sets cursor as dirty.
    pub fn set_cursor_dirty(&mut self)
        ensures
            *final(self) == (DirtyFlags { cursor: true, ..*old(self) }),
    {
        self.cursor = true;
    }
}

/// Whether two byte strings are equal.
pub fn bytes_equal(a: &[u8], b: &[u8]) -> (r: bool)
    ensures
        r == (a@ == b@),
{
    if a.len() != b.len() {
        return false;
    }
    let mut i: usize = 0;
    while i < a.len()
        invariant
            a@.len() == b@.len(),
            0 <= i <= a@.len(),
            forall|k: int| 0 <= k < i ==> a@[k] == b@[k],
        decreases a@.len() - i,
    {
        if a[i] != b[i] {
            return false;
        }
        i = i + 1;
    }
    proof {
        assert(a@ =~= b@);
    }
    true
}

/// The abstract cursor: image size (standing for its texture), position of the image's
/// top-left corner in guest pixels, visibility, hotspot and the image bytes.
pub struct CursorModel {
    pub texture_size: Option<(i32, i32)>,
    pub x: i32,
    pub y: i32,
    pub visible: bool,
    pub hot_x: u32,
    pub hot_y: u32,
    pub last_data: Seq<u8>,
}

/// Host-side cursor state. `texture_size` is the size of the cursor texture built from
/// `last_data`, or `None` when there is no texture.
#[derive(Debug, Clone)]
pub struct CursorState {
    pub texture_size: Option<(i32, i32)>,
    // Stored as signed because QEMU positions the cursor by image top-left, which may be off-screen.
    pub x: i32,
    pub y: i32,
    pub visible: bool,
    pub hot_x: u32,
    pub hot_y: u32,
    pub last_data: Vec<u8>,
}

impl View for CursorState {
    type V = CursorModel;

    open spec fn view(&self) -> CursorModel {
        CursorModel {
            texture_size: self.texture_size,
            x: self.x,
            y: self.y,
            visible: self.visible,
            hot_x: self.hot_x,
            hot_y: self.hot_y,
            last_data: self.last_data@,
        }
    }
}

impl Default for CursorState {
    fn default() -> (r: Self)
        ensures
            r@ == (CursorModel {
                texture_size: None,
                x: 0,
                y: 0,
                visible: false,
                hot_x: 0,
                hot_y: 0,
                last_data: Seq::empty(),
            }),
    {
        CursorState { texture_size: None, x: 0, y: 0, visible: false, hot_x: 0, hot_y: 0, last_data: Vec::new() }
    }
}

/// Whether a cursor definition of `width` x `height` with hotspot `(hot_x, hot_y)` and
/// image `data` shows what the cursor already shows.
pub open spec fn spec_looks_same(c: CursorModel, width: u32, height: u32, hot_x: u32, hot_y: u32, data: Seq<u8>) -> bool {
    &&& c.hot_x == hot_x
    &&& c.hot_y == hot_y
    &&& c.texture_size == Some((width as i32, height as i32))
    &&& c.last_data == data
}

impl CursorState {
    /// Whether a new cursor definition equals the current one: same hotspot, a texture
    /// of the same size, and the same image bytes.
    pub fn looks_same(&self, width: u32, height: u32, hot_x: u32, hot_y: u32, new_data: &[u8]) -> (r: bool)
        ensures
            r == spec_looks_same(self@, width, height, hot_x, hot_y, new_data@),
    {
        let size_differs = match self.texture_size {
            None => true,
            Some((w, h)) => w != width as i32 || h != height as i32,
        };
        if self.hot_x != hot_x || self.hot_y != hot_y || self.last_data.len() != new_data.len() || size_differs {
            return false;
        }
        bytes_equal(self.last_data.as_slice(), new_data)
    }
}

/// The backend that presents the guest frame.
#[derive(Debug, Clone, Copy, PartialEq, Eq, Structural)]
pub enum RenderBackend {
    /// No frame.
    Unset,
    /// Frames copied into system memory.
    SoftwareRasterizer,
    /// Frames shared through a memory mapping.
    DirectMapped,
    /// Frames imported from DMA-BUFs.
    GpuPassthrough,
}

impl RenderBackend {
    /// Ensures the software backend is in use; returns `true` if it was set up by this call.
    pub fn ensure_software_rasterizer(&mut self) -> (created: bool)
        ensures
            *final(self) == RenderBackend::SoftwareRasterizer,
            created == (*old(self) != RenderBackend::SoftwareRasterizer),
    {
        let created = *self != RenderBackend::SoftwareRasterizer;
        *self = RenderBackend::SoftwareRasterizer;
        created
    }

    /// Ensures the mapped backend is in use; returns `true` if it was set up by this call.
    pub fn ensure_direct_mapped(&mut self) -> (created: bool)
        ensures
            *final(self) == RenderBackend::DirectMapped,
            created == (*old(self) != RenderBackend::DirectMapped),
    {
        let created = *self != RenderBackend::DirectMapped;
        *self = RenderBackend::DirectMapped;
        created
    }
}

/// The work a display event leaves for the rendering backend, with the payload it needs.
///
/// A backend that this event newly selected starts empty.
pub enum BackendWork {
    /// Nothing to build.
    Nothing,
    /// Replace the software frame.
    FullSoftwareUpdate { width: u32, height: u32, stride: u32, pixman_format: u32, data: Blob },
    /// Patch the software frame.
    PartialSoftwareUpdate { x: i32, y: i32, width: i32, height: i32, stride: u32, pixman_format: u32, data: Blob },
    /// Stage a single-plane DMA-BUF frame.
    StageGpuSinglePlane { dmabuf: zvariant::OwnedFd, width: u32, height: u32, stride: u32, fourcc: u32, modifier: u64 },
    /// Stage a multi-plane DMA-BUF frame.
    StageGpuMultiPlane {
        dmabuf: Vec<zvariant::OwnedFd>,
        x: u32,
        y: u32,
        width: u32,
        height: u32,
        offset: Vec<u64>,
        stride: Vec<u32>,
        fourcc: u32,
        backing_width: u32,
        backing_height: u32,
        modifier: u64,
    },
    /// Import a shared-memory frame.
    ImportMapped { memfd: zvariant::OwnedFd, offset: u32, width: u32, height: u32, stride: u32, pixman_format: u32 },
    /// Rebuild the texture of the mapped frame.
    RedrawMapped,
    /// Commit the staged DMA-BUF frame with damage `(x, y, width, height)`; repaint the
    /// frame when the commit produced a texture.
    CommitGpu { x: i32, y: i32, width: i32, height: i32 },
    /// Build the cursor texture from the cursor's image bytes.
    DefineCursorTexture,
}

/// The abstract screen: cursor, backend in use and whether frames are stored bottom-up.
pub struct ScreenModel {
    pub cursor: CursorModel,
    pub backend: RenderBackend,
    pub y0_top: bool,
}

/// Whether the fields of an event that the screen reads lie in the ranges its types
/// promise: a cursor image has a positive size and a non-negative hotspot.
pub open spec fn spec_fields_in_range(e: Event) -> bool {
    match e {
        Event::CursorDefine { width, height, hot_x, hot_y, .. } => width > 0 && height > 0 && hot_x >= 0 && hot_y >= 0,
        _ => true,
    }
}

impl Event {
    /// Whether the fields that the screen reads lie in the ranges its types promise.
    pub fn fields_in_range(&self) -> (r: bool)
        ensures
            r == spec_fields_in_range(*self),
    {
        match self {
            Event::CursorDefine { width, height, hot_x, hot_y, .. } => *width > 0 && *height > 0 && *hot_x >= 0
                && *hot_y >= 0,
            _ => true,
        }
    }
}

/// No repaint.
pub open spec fn clean() -> DirtyFlags {
    DirtyFlags { frame: false, cursor: false }
}

/// The effect of one display event on the screen: the new screen and either the
/// repaint flags with the backend work, or the error.
pub open spec fn spec_handle_event(s: ScreenModel, e: Event) -> (ScreenModel, Result<(DirtyFlags, BackendWork), Error>) {
    match e {
        Event::Scanout { width, height, stride, pixman_format, data } => (
            ScreenModel { backend: RenderBackend::SoftwareRasterizer, y0_top: false, ..s },
            Ok((
                DirtyFlags { frame: true, cursor: false },
                BackendWork::FullSoftwareUpdate { width, height, stride, pixman_format, data },
            )),
        ),
        Event::Update { x, y, width, height, stride, pixman_format, data } => (
            ScreenModel { backend: RenderBackend::SoftwareRasterizer, ..s },
            if s.backend != RenderBackend::SoftwareRasterizer {
                Err(Error::BackendNotReady(BackendNotReady::Software))
            } else {
                Ok((
                    DirtyFlags { frame: true, cursor: false },
                    BackendWork::PartialSoftwareUpdate { x, y, width, height, stride, pixman_format, data },
                ))
            },
        ),
        Event::ScanoutDmabuf { dmabuf, width, height, stride, fourcc, modifier, y0_top } => (
            ScreenModel { backend: RenderBackend::GpuPassthrough, y0_top, ..s },
            Ok((clean(), BackendWork::StageGpuSinglePlane { dmabuf, width, height, stride, fourcc, modifier })),
        ),
        Event::ScanoutDmabuf2 {
            dmabuf,
            x,
            y,
            width,
            height,
            offset,
            stride,
            num_planes,
            fourcc,
            backing_width,
            backing_height,
            modifier,
            y0_top,
        } => (
            ScreenModel { backend: RenderBackend::GpuPassthrough, y0_top, ..s },
            Ok((
                clean(),
                BackendWork::StageGpuMultiPlane {
                    dmabuf,
                    x,
                    y,
                    width,
                    height,
                    offset,
                    stride,
                    fourcc,
                    backing_width,
                    backing_height,
                    modifier,
                },
            )),
        ),
        Event::ScanoutMap { memfd, offset, width, height, stride, pixman_format } => (
            ScreenModel { backend: RenderBackend::DirectMapped, y0_top: false, ..s },
            Ok((clean(), BackendWork::ImportMapped { memfd, offset, width, height, stride, pixman_format })),
        ),
        Event::UpdateMap { .. } => (
            ScreenModel { backend: RenderBackend::DirectMapped, ..s },
            if s.backend != RenderBackend::DirectMapped {
                Err(Error::BackendNotReady(BackendNotReady::DirectMapped))
            } else {
                Ok((DirtyFlags { frame: true, cursor: false }, BackendWork::RedrawMapped))
            },
        ),
        Event::UpdateDmabuf { x, y, width, height } => (
            s,
            if s.backend != RenderBackend::GpuPassthrough {
                Err(Error::BackendNotReady(BackendNotReady::GpuPassthrough))
            } else {
                Ok((clean(), BackendWork::CommitGpu { x, y, width, height }))
            },
        ),
        Event::CursorDefine { width, height, hot_x, hot_y, data } => if spec_looks_same(
            s.cursor,
            width as u32,
            height as u32,
            hot_x as u32,
            hot_y as u32,
            data.0@,
        ) {
            (ScreenModel { cursor: CursorModel { visible: true, ..s.cursor }, ..s }, Ok((clean(), BackendWork::Nothing)))
        } else {
            (
                ScreenModel {
                    cursor: CursorModel {
                        texture_size: Some((width, height)),
                        last_data: data.0@,
                        hot_x: hot_x as u32,
                        hot_y: hot_y as u32,
                        visible: true,
                        ..s.cursor
                    },
                    ..s
                },
                Ok((DirtyFlags { frame: false, cursor: true }, BackendWork::DefineCursorTexture)),
            )
        },
        Event::MouseSet { x, y, on } => if s.cursor.x != x || s.cursor.y != y || s.cursor.visible != (on != 0) {
            (
                ScreenModel { cursor: CursorModel { x, y, visible: on != 0, ..s.cursor }, ..s },
                Ok((DirtyFlags { frame: false, cursor: true }, BackendWork::Nothing)),
            )
        } else {
            (s, Ok((clean(), BackendWork::Nothing)))
        },
        Event::Disable => (
            ScreenModel {
                backend: RenderBackend::Unset,
                y0_top: false,
                cursor: CursorModel { visible: false, texture_size: None, ..s.cursor },
            },
            Ok((DirtyFlags { frame: true, cursor: true }, BackendWork::Nothing)),
        ),
    }
}

/// A partial update is accepted right after the full frame it patches: an `Update`
/// after a `Scanout`, an `UpdateMap` after a `ScanoutMap`, and an `UpdateDMABUF` after
/// either DMA-BUF scanout, whatever state the screen was in before.
pub proof fn law_update_follows_its_scanout(s: ScreenModel, scanout: Event, update: Event)
    requires
        (scanout is Scanout && update is Update) || (scanout is ScanoutMap && update is UpdateMap) || ((
        scanout is ScanoutDmabuf || scanout is ScanoutDmabuf2) && update is UpdateDmabuf),
    ensures
        spec_handle_event(spec_handle_event(s, scanout).0, update).1 is Ok,
{
}

/// A DMA-BUF scanout records the frame's orientation: whatever state the screen was in,
/// afterwards it presents through the GPU path with `y0_top` equal to the event's flag,
/// and a partial DMA-BUF update that follows keeps that flag.
pub proof fn law_dmabuf_scanout_records_orientation(s: ScreenModel, scanout: Event, update: Event)
    requires
        scanout is ScanoutDmabuf || scanout is ScanoutDmabuf2,
        update is UpdateDmabuf,
    ensures
        ({
            let flag = match scanout {
                Event::ScanoutDmabuf { y0_top, .. } => y0_top,
                Event::ScanoutDmabuf2 { y0_top, .. } => y0_top,
                _ => false,
            };
            let after = spec_handle_event(s, scanout).0;
            &&& after.y0_top == flag
            &&& after.backend == RenderBackend::GpuPassthrough
            &&& spec_handle_event(after, update).0.y0_top == flag
        }),
{
}

/// Only a DMA-BUF scanout can mark a frame as bottom-up: a memory scanout (`Scanout`,
/// `ScanoutMap`) and `Disable` clear `y0_top`, and every other event that is not a
/// scanout (updates, cursor events) leaves it as it was.
pub proof fn law_orientation_changes_only_on_scanouts(s: ScreenModel, e: Event)
    ensures
        (e is Scanout || e is ScanoutMap || e is Disable) ==> !spec_handle_event(s, e).0.y0_top,
        !(e is Scanout || e is ScanoutMap || e is Disable || e is ScanoutDmabuf || e is ScanoutDmabuf2)
            ==> spec_handle_event(s, e).0.y0_top == s.y0_top,
{
}

/// A partial update is refused after `Disable`, which leaves no backend.
pub proof fn law_disable_refuses_updates(s: ScreenModel, update: Event)
    requires
        update is Update || update is UpdateMap || update is UpdateDmabuf,
    ensures
        spec_handle_event(s, Event::Disable).0.backend == RenderBackend::Unset,
        spec_handle_event(spec_handle_event(s, Event::Disable).0, update).1 is Err,
{
}

/// Defining the same cursor twice rebuilds nothing the second time: the second
/// definition asks for no repaint and no texture, and leaves the screen as the first
/// left it.
pub proof fn law_cursor_define_is_idempotent(s: ScreenModel, e: Event)
    requires
        e is CursorDefine,
        spec_fields_in_range(e),
    ensures
        ({
            let s1 = spec_handle_event(s, e).0;
            &&& spec_handle_event(s1, e).0 == s1
            &&& spec_handle_event(s1, e).1 == Ok::<(DirtyFlags, BackendWork), Error>((clean(), BackendWork::Nothing))
        }),
{
    if let Event::CursorDefine { width, height, hot_x, hot_y, data } = e {
        assert((width as u32) as i32 == width);
        assert((height as u32) as i32 == height);
    }
}

/// Screen and cursor state model.
#[derive(Debug)]
pub struct Screen {
    pub cursor: CursorState,
    pub backend: RenderBackend,
    pub y0_top: bool,
}

impl View for Screen {
    type V = ScreenModel;

    open spec fn view(&self) -> ScreenModel {
        ScreenModel { cursor: self.cursor@, backend: self.backend, y0_top: self.y0_top }
    }
}

impl Screen {
    /// A screen with no frame and a hidden cursor.
    pub fn new() -> (r: Self)
        ensures
            r@.backend == RenderBackend::Unset,
            !r@.y0_top,
            r@.cursor == (CursorModel {
                texture_size: None,
                x: 0,
                y: 0,
                visible: false,
                hot_x: 0,
                hot_y: 0,
                last_data: Seq::empty(),
            }),
    {
        Screen { cursor: CursorState::default(), backend: RenderBackend::Unset, y0_top: false }
    }

    /// Applies one display event and returns dirty flags for frame/cursor refresh, with
    /// the work left for the rendering backend.
    pub fn handle_event(&mut self, event: Event) -> (r: Result<(DirtyFlags, BackendWork), Error>)
        requires
            spec_fields_in_range(event),
        ensures
            (final(self)@, r) == spec_handle_event(old(self)@, event),
    {
        match event {
            Event::Scanout { width, height, stride, pixman_format, data } => {
                self.y0_top = false;
                self.backend.ensure_software_rasterizer();
                Ok((
                    DirtyFlags { frame: true, cursor: false },
                    BackendWork::FullSoftwareUpdate { width, height, stride, pixman_format, data },
                ))
            },
            Event::Update { x, y, width, height, stride, pixman_format, data } => {
                let created = self.backend.ensure_software_rasterizer();
                if created {
                    return Err(Error::BackendNotReady(BackendNotReady::Software));
                }
                Ok((
                    DirtyFlags { frame: true, cursor: false },
                    BackendWork::PartialSoftwareUpdate { x, y, width, height, stride, pixman_format, data },
                ))
            },
            Event::ScanoutDmabuf { dmabuf, width, height, stride, fourcc, modifier, y0_top } => {
                self.y0_top = y0_top;
                self.backend = RenderBackend::GpuPassthrough;
                Ok((
                    DirtyFlags { frame: false, cursor: false },
                    BackendWork::StageGpuSinglePlane { dmabuf, width, height, stride, fourcc, modifier },
                ))
            },
            Event::ScanoutDmabuf2 {
                dmabuf,
                x,
                y,
                width,
                height,
                offset,
                stride,
                num_planes,
                fourcc,
                backing_width,
                backing_height,
                modifier,
                y0_top,
            } => {
                self.y0_top = y0_top;
                self.backend = RenderBackend::GpuPassthrough;
                Ok((
                    DirtyFlags { frame: false, cursor: false },
                    BackendWork::StageGpuMultiPlane {
                        dmabuf,
                        x,
                        y,
                        width,
                        height,
                        offset,
                        stride,
                        fourcc,
                        backing_width,
                        backing_height,
                        modifier,
                    },
                ))
            },
            Event::ScanoutMap { memfd, offset, width, height, stride, pixman_format } => {
                self.y0_top = false;
                self.backend.ensure_direct_mapped();
                Ok((
                    DirtyFlags { frame: false, cursor: false },
                    BackendWork::ImportMapped { memfd, offset, width, height, stride, pixman_format },
                ))
            },
            Event::UpdateMap { .. } => {
                let created = self.backend.ensure_direct_mapped();
                if created {
                    return Err(Error::BackendNotReady(BackendNotReady::DirectMapped));
                }
                Ok((DirtyFlags { frame: true, cursor: false }, BackendWork::RedrawMapped))
            },
            Event::UpdateDmabuf { x, y, width, height } => {
                if self.backend != RenderBackend::GpuPassthrough {
                    return Err(Error::BackendNotReady(BackendNotReady::GpuPassthrough));
                }
                Ok((DirtyFlags { frame: false, cursor: false }, BackendWork::CommitGpu { x, y, width, height }))
            },
            Event::CursorDefine { width, height, hot_x, hot_y, data } => {
                let same = self.cursor.looks_same(
                    width as u32,
                    height as u32,
                    hot_x as u32,
                    hot_y as u32,
                    data.0.as_slice(),
                );
                self.cursor.visible = true;
                if same {
                    return Ok((DirtyFlags { frame: false, cursor: false }, BackendWork::Nothing));
                }
                self.cursor.texture_size = Some((width, height));
                self.cursor.last_data = data.0;
                self.cursor.hot_x = hot_x as u32;
                self.cursor.hot_y = hot_y as u32;
                Ok((DirtyFlags { frame: false, cursor: true }, BackendWork::DefineCursorTexture))
            },
            Event::MouseSet { x, y, on } => {
                let visible = on != 0;
                if self.cursor.x != x || self.cursor.y != y || self.cursor.visible != visible {
                    self.cursor.x = x;
                    self.cursor.y = y;
                    self.cursor.visible = visible;
                    return Ok((DirtyFlags { frame: false, cursor: true }, BackendWork::Nothing));
                }
                Ok((DirtyFlags { frame: false, cursor: false }, BackendWork::Nothing))
            },
            Event::Disable => {
                self.y0_top = false;
                self.backend = RenderBackend::Unset;
                self.cursor.visible = false;
                self.cursor.texture_size = None;
                Ok((DirtyFlags { frame: true, cursor: true }, BackendWork::Nothing))
            },
        }
    }

    /// Returns `(width, height)` in pixels of the frame, given the resolutions of the
    /// software, mapped and DMA-BUF backends (`(0, 0)` for one without a frame): that of
    /// the backend in use, `None` without a backend or when that backend has no frame.
    pub fn resolution(&self, software: (u32, u32), mapped: (u32, u32), gpu: (u32, u32)) -> (r: Option<(u32, u32)>)
        ensures
            r == (match self.backend {
                RenderBackend::SoftwareRasterizer => spec_frame_size(software),
                RenderBackend::DirectMapped => spec_frame_size(mapped),
                RenderBackend::GpuPassthrough => spec_frame_size(gpu),
                RenderBackend::Unset => None,
            }),
    {
        let size = match self.backend {
            RenderBackend::SoftwareRasterizer => software,
            RenderBackend::DirectMapped => mapped,
            RenderBackend::GpuPassthrough => gpu,
            RenderBackend::Unset => return None,
        };
        if size.0 != 0 && size.1 != 0 {
            Some(size)
        } else {
            None
        }
    }
}

/// A backend's frame size, when it has a frame: both sides are nonzero.
pub open spec fn spec_frame_size(size: (u32, u32)) -> Option<(u32, u32)> {
    if size.0 != 0 && size.1 != 0 {
        Some(size)
    } else {
        None
    }
}

} // verus!
