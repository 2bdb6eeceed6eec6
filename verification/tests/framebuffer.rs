use libmks_rs::display::framebuffer::{Damage, ShmBuffer, Swapchain, SwapchainError, TextureStep};
use libmks_rs::display::pixman_4cc::{drm_4cc, pixman};

fn active_bytes(chain: &Swapchain) -> Vec<u8> {
    chain.active_ref().expect("a frame is presented").bytes.clone()
}

#[test]
fn partial_update_before_any_frame_is_refused() {
    let mut chain = Swapchain::new();
    assert_eq!(chain.resolution(), None);
    assert_eq!(
        chain.partial_update_texture(0, 0, 1, 1, 4, pixman::A8R8G8B8, &[0; 4]),
        Err(SwapchainError::NoActiveBuffer)
    );
}

#[test]
fn double_buffered_updates_present_the_patched_frame() {
    let fmt = pixman::A8R8G8B8;
    let mut chain = Swapchain::new();

    // First frame: a new buffer, whose texture must be built before it is presented.
    let step = chain.full_update_texture(2, 2, 8, fmt, &[1; 16]);
    assert_eq!(step, Ok(TextureStep::Build { fourcc: drm_4cc::ARGB8888 }));
    assert!(chain.active_ref().is_none());
    chain.present_new_texture();
    assert_eq!(active_bytes(&chain), vec![1; 16]);
    assert_eq!(chain.resolution(), Some((2, 2)));

    // Patch pixel (0, 0): the back buffer is created as a copy, then patched.
    let step = chain.partial_update_texture(0, 0, 1, 1, 4, fmt, &[9; 4]);
    assert_eq!(step, Ok(TextureStep::Build { fourcc: drm_4cc::ARGB8888 }));
    assert_eq!(active_bytes(&chain), vec![1; 16]);
    chain.present_new_texture();
    let mut expected = vec![1u8; 16];
    expected[..4].copy_from_slice(&[9; 4]);
    assert_eq!(active_bytes(&chain), expected);

    // Patch pixel (1, 1): the stale back buffer is reused after taking the last damage.
    let step = chain.partial_update_texture(1, 1, 1, 1, 4, fmt, &[7; 4]);
    assert_eq!(step, Ok(TextureStep::Reuse));
    expected[12..].copy_from_slice(&[7; 4]);
    assert_eq!(active_bytes(&chain), expected);

    // A full frame of the same size reuses the back buffer and its texture.
    let frame: Vec<u8> = (0..16).collect();
    assert_eq!(chain.full_update_texture(2, 2, 8, fmt, &frame), Ok(TextureStep::Reuse));
    assert_eq!(active_bytes(&chain), frame);
}

#[test]
fn unknown_format_keeps_the_presented_frame() {
    let mut chain = Swapchain::new();
    assert!(chain.full_update_texture(1, 1, 4, pixman::A8R8G8B8, &[5; 4]).is_ok());
    chain.present_new_texture();
    let r = chain.full_update_texture(2, 1, 8, pixman::G1, &[6; 8]);
    assert_eq!(r, Err(SwapchainError::UnknownPixman));
    assert_eq!(active_bytes(&chain), vec![5; 4]);
    assert_eq!(chain.shadow_ref().unwrap().bytes, vec![6; 8]);
}

#[test]
fn shm_buffer_rect_and_damage_copies() {
    let fmt = pixman::A8R8G8B8;
    let mut a = ShmBuffer::new(2, 2, 8, fmt);
    assert_eq!(a.bytes, vec![0; 16]);
    assert_eq!(a.len(), 16);
    assert!(a.is_reuseable(4, 4));
    assert!(!a.is_reuseable(3, 4));
    a.update_rect(1, 0, 1, 2, 4, &[3, 3, 3, 3, 4, 4, 4, 4]);
    assert_eq!(a.bytes, vec![0, 0, 0, 0, 3, 3, 3, 3, 0, 0, 0, 0, 4, 4, 4, 4]);
    let mut b = ShmBuffer::with_buf(2, 2, 8, fmt, &[8; 16]);
    b.update_damage(Damage { x: 1, y: 1, w: 1, h: 1 }, &a);
    assert_eq!(b.bytes, vec![8, 8, 8, 8, 8, 8, 8, 8, 8, 8, 8, 8, 4, 4, 4, 4]);
    let c = b.try_clone();
    assert_eq!(c.bytes, b.bytes);
    let mut d = ShmBuffer::with_buf(4, 1, 16, fmt, &[0; 16]);
    d.update_all(2, 2, 8, fmt, &[1; 16]);
    assert_eq!((d.width, d.height, d.stride), (2, 2, 8));
    assert_eq!(d.bytes, vec![1; 16]);
}

#[test]
fn sync_after_swapping_back_to_a_smaller_frame_clones_it() {
    let fmt = pixman::A8R8G8B8;
    let mut chain = Swapchain::new();
    assert!(chain.full_update_texture(1, 1, 4, fmt, &[5; 4]).is_ok());
    chain.present_new_texture();
    assert!(chain.full_update_texture(2, 1, 8, fmt, &[6; 8]).is_ok());
    chain.present_new_texture();
    // The last damage covers the 2x1 frame; the frame now presented is 1x1.
    chain.swap_frame();
    assert_eq!(chain.resolution(), Some((1, 1)));
    assert_eq!(chain.sync_active_to_shadow(), Ok(true));
    assert_eq!(chain.shadow_ref().unwrap().bytes, vec![5; 4]);
    assert_eq!(chain.active_ref().unwrap().bytes, vec![5; 4]);
}
