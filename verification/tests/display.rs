use libmks_rs::dbus::listener::{Blob, Event};
use libmks_rs::display::display_state::{BackendWork, CursorState, DirtyFlags, RenderBackend, Screen};
use libmks_rs::display::gpu_passthrough::{map_damage, CommitPlan, DmabufGeometry, GpuPassthrough, PlaneLayout};
use libmks_rs::display::pixman_4cc::{drm_4cc, pixman};
use libmks_rs::display::screen::CursorState as SampledCursor;
use libmks_rs::display::software_rasterizer::{RasterSurface, SoftwareRasterizer};
use libmks_rs::display::udma::{
    check_udmabuf_args, fetch_page_size, udmabuf_args_aligned, Damage, UdmabufCreate, UDMABUF_FLAGS_CLOEXEC,
};
use libmks_rs::display::{BackendNotReady, Error};

fn blob(v: &[u8]) -> Blob {
    Blob::from(v.to_vec())
}

#[test]
fn scanout_selects_software_backend_and_update_needs_it() {
    let mut screen = Screen::new();
    let r = screen.handle_event(Event::Update {
        x: 0,
        y: 0,
        width: 1,
        height: 1,
        stride: 4,
        pixman_format: 0,
        data: blob(&[0; 4]),
    });
    assert_eq!(r.err(), Some(Error::BackendNotReady(BackendNotReady::Software)));
    assert_eq!(screen.backend, RenderBackend::SoftwareRasterizer);

    let r = screen.handle_event(Event::Scanout { width: 2, height: 2, stride: 8, pixman_format: 7, data: blob(&[1; 16]) });
    match r {
        Ok((flags, BackendWork::FullSoftwareUpdate { width, height, stride, pixman_format, data })) => {
            assert_eq!(flags, DirtyFlags { frame: true, cursor: false });
            assert_eq!((width, height, stride, pixman_format), (2, 2, 8, 7));
            assert_eq!(data.len(), 16);
        }
        _ => panic!("expected a full software update"),
    }
    let r = screen.handle_event(Event::Update {
        x: 1,
        y: 1,
        width: 1,
        height: 1,
        stride: 4,
        pixman_format: 7,
        data: blob(&[2; 4]),
    });
    assert!(matches!(r, Ok((DirtyFlags { frame: true, cursor: false }, BackendWork::PartialSoftwareUpdate { .. }))));
}

#[test]
fn dmabuf_update_without_gpu_backend_is_rejected() {
    let mut screen = Screen::new();
    let r = screen.handle_event(Event::UpdateDmabuf { x: 0, y: 0, width: 10, height: 10 });
    assert_eq!(r.err(), Some(Error::BackendNotReady(BackendNotReady::GpuPassthrough)));
    let r = screen.handle_event(Event::UpdateMap { x: 0, y: 0, width: 10, height: 10 });
    assert_eq!(r.err(), Some(Error::BackendNotReady(BackendNotReady::DirectMapped)));
    assert_eq!(screen.backend, RenderBackend::DirectMapped);
    let r = screen.handle_event(Event::UpdateMap { x: 0, y: 0, width: 10, height: 10 });
    assert!(matches!(r, Ok((DirtyFlags { frame: true, cursor: false }, BackendWork::RedrawMapped))));
}

#[test]
fn cursor_define_is_skipped_when_unchanged() {
    let mut screen = Screen::new();
    let img = [9u8; 16];
    let r = screen.handle_event(Event::CursorDefine { width: 2, height: 2, hot_x: 1, hot_y: 0, data: blob(&img) });
    assert!(matches!(r, Ok((DirtyFlags { frame: false, cursor: true }, BackendWork::DefineCursorTexture))));
    assert!(screen.cursor.visible);
    assert_eq!(screen.cursor.texture_size, Some((2, 2)));
    let r = screen.handle_event(Event::CursorDefine { width: 2, height: 2, hot_x: 1, hot_y: 0, data: blob(&img) });
    assert!(matches!(r, Ok((DirtyFlags { frame: false, cursor: false }, BackendWork::Nothing))));
    let r = screen.handle_event(Event::CursorDefine { width: 2, height: 2, hot_x: 0, hot_y: 0, data: blob(&img) });
    assert!(matches!(r, Ok((DirtyFlags { frame: false, cursor: true }, BackendWork::DefineCursorTexture))));
    assert_eq!(screen.cursor.hot_x, 0);
}

#[test]
fn mouse_set_marks_cursor_dirty_only_on_change() {
    let mut screen = Screen::new();
    let r = screen.handle_event(Event::MouseSet { x: 5, y: 6, on: 1 });
    assert!(matches!(r, Ok((DirtyFlags { frame: false, cursor: true }, BackendWork::Nothing))));
    let r = screen.handle_event(Event::MouseSet { x: 5, y: 6, on: 7 });
    assert!(matches!(r, Ok((DirtyFlags { frame: false, cursor: false }, BackendWork::Nothing))));
    assert_eq!((screen.cursor.x, screen.cursor.y, screen.cursor.visible), (5, 6, true));
}

#[test]
fn disable_resets_backend_and_hides_cursor() {
    let mut screen = Screen::new();
    let _ = screen.handle_event(Event::Scanout { width: 1, height: 1, stride: 4, pixman_format: 7, data: blob(&[0; 4]) });
    let _ = screen.handle_event(Event::MouseSet { x: 1, y: 1, on: 1 });
    let r = screen.handle_event(Event::Disable);
    assert!(matches!(r, Ok((DirtyFlags { frame: true, cursor: true }, BackendWork::Nothing))));
    assert_eq!(screen.backend, RenderBackend::Unset);
    assert!(!screen.cursor.visible);
    assert_eq!(screen.cursor.texture_size, None);
    assert_eq!(screen.resolution((1, 1), (2, 2), (3, 3)), None);
}

#[test]
fn resolution_follows_the_backend() {
    let mut screen = Screen::new();
    let _ = screen.handle_event(Event::Scanout { width: 1, height: 1, stride: 4, pixman_format: 7, data: blob(&[0; 4]) });
    assert_eq!(screen.resolution((1, 1), (2, 2), (3, 3)), Some((1, 1)));
    assert_eq!(screen.resolution((0, 0), (2, 2), (3, 3)), None);
}

#[test]
fn dirty_flags_merge_and_set() {
    let mut f = DirtyFlags::default();
    assert!(!f.any());
    f.merge(DirtyFlags { frame: true, cursor: false });
    assert_eq!(f, DirtyFlags { frame: true, cursor: false });
    f.set_cursor_dirty();
    assert_eq!(f, DirtyFlags { frame: true, cursor: true });
    let mut g = DirtyFlags::default();
    g.set_frame_and_cursor_dirty();
    assert!(g.any());
}

#[test]
fn render_backend_ensure_reports_creation() {
    let mut b = RenderBackend::Unset;
    assert!(b.ensure_software_rasterizer());
    assert!(!b.ensure_software_rasterizer());
    assert!(b.ensure_direct_mapped());
    assert!(!b.ensure_direct_mapped());
}

#[test]
fn cursor_looks_same_compares_everything() {
    let mut c = CursorState::default();
    assert!(!c.looks_same(1, 1, 0, 0, &[]));
    c.texture_size = Some((1, 1));
    c.last_data = vec![1, 2, 3, 4];
    assert!(c.looks_same(1, 1, 0, 0, &[1, 2, 3, 4]));
    assert!(!c.looks_same(1, 1, 0, 0, &[1, 2, 3, 5]));
    assert!(!c.looks_same(1, 1, 1, 0, &[1, 2, 3, 4]));
    assert!(!c.looks_same(2, 1, 0, 0, &[1, 2, 3, 4]));
}

#[test]
fn sampled_cursor_check_compares_nine_pixels() {
    let w = 4u32;
    let h = 4u32;
    let data: Vec<u8> = (0..64u8).collect();
    let c = SampledCursor {
        texture_size: Some((4, 4)),
        x: 0,
        y: 0,
        visible: true,
        hot_x: 0,
        hot_y: 0,
        last_data: data.clone(),
    };
    assert!(c.looks_same(w, h, 0, 0, &data, 4));
    let mut changed_sample = data.clone();
    changed_sample[0] ^= 0xff;
    assert!(!c.looks_same(w, h, 0, 0, &changed_sample, 4));
    // Pixel (1, 1) is not one of the nine samples of a 4 x 4 image.
    let mut changed_other = data.clone();
    changed_other[(1 * 4 + 1) * 4] ^= 0xff;
    assert!(c.looks_same(w, h, 0, 0, &changed_other, 4));
    assert!(!c.looks_same(w, h, 0, 0, &data, 0));
    assert!(!c.looks_same(w, h, 0, 1, &data, 4));
}

#[test]
fn raster_surface_update_rect_patches_rows() {
    let mut s = RasterSurface::new(3, 2, 12, pixman::A8R8G8B8, vec![0u8; 24]);
    s.update_rect(1, 1, 2, 1, 8, vec![7u8; 8]);
    let mut expected = vec![0u8; 24];
    for b in &mut expected[16..24] {
        *b = 7;
    }
    assert_eq!(s.buf(), &expected);
    assert_eq!((s.width(), s.height(), s.stride()), (3, 2, 12));
    assert_eq!(s.pixman(), pixman::A8R8G8B8);
}

#[test]
fn rasterizer_errors_and_clipping() {
    let mut r = SoftwareRasterizer::new();
    assert_eq!(r.resolution(), (0, 0));
    assert_eq!(r.partial_update_texture(0, 0, 1, 1, 4, pixman::A8R8G8B8, vec![0; 4]), Err(Error::NoStagedBuffer));
    assert!(r.full_update_texture(2, 2, 8, pixman::G1, vec![0; 16]).is_err());
    assert!(r.surface().is_none());
    assert_eq!(r.full_update_texture(2, 2, 8, pixman::A8R8G8B8, vec![0; 16]), Ok(()));
    assert_eq!(r.resolution(), (2, 2));
    assert_eq!(
        r.partial_update_texture(0, 0, 1, 1, 4, pixman::X8R8G8B8, vec![0; 4]),
        Err(Error::PartialUpdatePixmanNotMatch)
    );
    assert_eq!(
        r.partial_update_texture(2, 0, 1, 1, 4, pixman::A8R8G8B8, vec![0; 4]),
        Err(Error::PartialUpdateOffScreen)
    );
    // A 3 x 3 update at (1, 1) is clipped to the single pixel (1, 1).
    assert!(r.check_partial_update(1, 1, 3, 3, 12, pixman::A8R8G8B8, 4));
    assert!(!r.check_partial_update(0, 0, 2, 2, 8, pixman::A8R8G8B8, 15));
    assert_eq!(r.partial_update_texture(1, 1, 3, 3, 12, pixman::A8R8G8B8, vec![5u8; 4]), Ok(()));
    let buf = r.surface().unwrap().buf().clone();
    assert_eq!(&buf[..12], &[0u8; 12]);
    assert_eq!(&buf[12..16], &[5u8; 4]);
}

fn dummy_fd() -> zvariant::OwnedFd {
    let fd = rustix::fs::memfd_create("plane", rustix::fs::MemfdFlags::CLOEXEC).expect("memfd_create");
    zvariant::OwnedFd::from(fd)
}

fn layouts(g: &GpuPassthrough) -> Vec<PlaneLayout> {
    g.active.as_ref().unwrap().planes.iter().map(|p| PlaneLayout { stride: p.stride, offset: p.offset }).collect()
}

#[test]
fn gpu_passthrough_page_flip_then_in_place() {
    let mut g = GpuPassthrough::new();
    assert_eq!(g.commit_update(0, 0, 1, 1), CommitPlan::Skip);
    g.stage_multi_plane(
        vec![dummy_fd(), dummy_fd()],
        10,
        20,
        100,
        50,
        200,
        100,
        &vec![800, 400, 400],
        &vec![0, 4096],
        drm_4cc::ARGB8888,
        7,
    );
    assert_eq!(g.resolution(), (0, 0));
    assert_eq!(g.commit_update(0, 0, 1, 1), CommitPlan::PageFlip);
    assert!(g.pending.is_none());
    assert_eq!(g.resolution(), (100, 50));
    assert_eq!(layouts(&g), vec![PlaneLayout { stride: 800, offset: 0 }, PlaneLayout { stride: 400, offset: 4096 }]);
    let active = g.active.as_ref().unwrap();
    assert_eq!(active.sanitized_fourcc, drm_4cc::XRGB8888);
    assert_eq!(active.modifier, 7);
    assert_eq!(g.commit_update(5, 5, 10, 10), CommitPlan::InPlace(Damage { x: 15, y: 25, width: 10, height: 10 }));
    assert_eq!(g.commit_update(150, 0, 100, 1), CommitPlan::Skip);
    g.stage_single_plane(dummy_fd(), 64, 32, 256, drm_4cc::XRGB8888, 0);
    assert_eq!(g.resolution(), (100, 50));
    assert_eq!(g.commit_update(0, 0, 1, 1), CommitPlan::PageFlip);
    assert_eq!(g.resolution(), (64, 32));
    assert_eq!(layouts(&g), vec![PlaneLayout { stride: 256, offset: 0 }]);
}

#[test]
fn multi_plane_scanout_keeps_at_most_four_planes() {
    let mut g = GpuPassthrough::new();
    let fds = (0..6).map(|_| dummy_fd()).collect();
    g.stage_multi_plane(fds, 0, 0, 8, 8, 8, 8, &vec![1, 2, 3, 4, 5, 6], &vec![0; 6], drm_4cc::NV12, 0);
    assert_eq!(g.commit_update(0, 0, 1, 1), CommitPlan::PageFlip);
    assert_eq!(layouts(&g).len(), 4);
    assert_eq!(g.active.as_ref().unwrap().sanitized_fourcc, drm_4cc::NV12);
}

#[test]
fn map_damage_saturates_and_bounds() {
    let geo = DmabufGeometry {
        backing_width: 100,
        backing_height: 100,
        crop_x: 10,
        crop_y: 10,
        crop_width: 50,
        crop_height: 50,
    };
    assert_eq!(map_damage(&geo, 0, 0, 90, 90), Some(Damage { x: 10, y: 10, width: 90, height: 90 }));
    assert_eq!(map_damage(&geo, 0, 0, 91, 90), None);
    assert_eq!(map_damage(&geo, u32::MAX, 0, 1, 1), None);
}

#[test]
fn udmabuf_request_and_alignment() {
    let req = UdmabufCreate::new(7, 4096, 8192);
    assert_eq!(req, UdmabufCreate { memfd: 7, flags: UDMABUF_FLAGS_CLOEXEC, offset: 4096, size: 8192 });
    assert_eq!(UdmabufCreate::new(-1, 0, 0).memfd, u32::MAX);
    assert!(udmabuf_args_aligned(0, 4096, 4096));
    assert!(!udmabuf_args_aligned(123, 4096, 4096));
    assert!(!udmabuf_args_aligned(0, 100, 4096));
    assert!(udmabuf_args_aligned(0, 0, 0));
    assert!(!udmabuf_args_aligned(0, 1, 0));
}

#[test]
fn udmabuf_alignment_uses_the_system_page_size() {
    let page = fetch_page_size() as u64;
    assert!(page > 0);
    let (reported, ok) = check_udmabuf_args(123, page);
    assert_eq!(reported, page);
    assert!(!ok, "an unaligned offset must be caught before the device is opened");
    assert_eq!(check_udmabuf_args(0, page), (page, true));
    assert_eq!(check_udmabuf_args(page, 2 * page), (page, true));
    assert_eq!(check_udmabuf_args(0, page + 1), (page, false));
}
