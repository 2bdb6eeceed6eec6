use libmks_rs::display::pixman_4cc::{drm_4cc, pixman, sanitize_opaque_fourcc, Pixman, UnknownPixmanFormat};

#[test]
fn test_fourcc_generation() {
    let code = drm_4cc::fourcc_code(b'A', b'B', b'C', b'D');
    assert_eq!(u32::from(code), 0x44434241);
    assert_eq!(u32::from(drm_4cc::ARGB8888), 0x34325241);
}

#[test]
fn test_is_premultiplied() {
    assert!(pixman::A8R8G8B8.is_premultiplied());
    assert!(pixman::A1R5G5B5.is_premultiplied());
    assert!(pixman::A8.is_premultiplied());

    assert!(!pixman::X8R8G8B8.is_premultiplied());
    assert!(!pixman::X1R5G5B5.is_premultiplied());

    assert!(!pixman::R5G6B5.is_premultiplied());
    assert!(!pixman::R8G8B8.is_premultiplied());
}

#[test]
fn test_pixman_to_drm_conversion_success() {
    let drm_fmt = drm_4cc::FourCC::try_from(pixman::A8R8G8B8);
    assert_eq!(drm_fmt, Ok(drm_4cc::ARGB8888));

    let drm_fmt_16 = drm_4cc::FourCC::try_from(pixman::R5G6B5);
    assert_eq!(drm_fmt_16, Ok(drm_4cc::RGB565));

    let drm_yuv = drm_4cc::FourCC::try_from(pixman::YUY2);
    assert_eq!(drm_yuv, Ok(drm_4cc::YUYV));
}

#[test]
fn test_pixman_to_drm_conversion_failure() {
    let result = drm_4cc::FourCC::try_from(pixman::G1);
    assert!(result.is_err());
    assert_eq!(result.unwrap_err(), UnknownPixmanFormat);
}

#[test]
fn test_x_vs_a_mapping() {
    let alpha = drm_4cc::FourCC::try_from(pixman::A8R8G8B8).unwrap();
    let no_alpha = drm_4cc::FourCC::try_from(pixman::X8R8G8B8).unwrap();

    assert_ne!(alpha, no_alpha);
    assert_eq!(alpha, drm_4cc::ARGB8888);
    assert_eq!(no_alpha, drm_4cc::XRGB8888);
}

#[test]
fn test_sanitize_opaque_fourcc_converts_alpha_formats() {
    assert_eq!(sanitize_opaque_fourcc(drm_4cc::ARGB8888), drm_4cc::XRGB8888);
    assert_eq!(sanitize_opaque_fourcc(drm_4cc::ABGR8888), drm_4cc::XBGR8888);
    assert_eq!(sanitize_opaque_fourcc(drm_4cc::RGBA8888), drm_4cc::RGBX8888);
    assert_eq!(sanitize_opaque_fourcc(drm_4cc::BGRA8888), drm_4cc::BGRX8888);
    assert_eq!(sanitize_opaque_fourcc(drm_4cc::ARGB2101010), drm_4cc::XRGB2101010);
    assert_eq!(sanitize_opaque_fourcc(drm_4cc::ARGB16161616F), drm_4cc::XRGB16161616F);
}

#[test]
fn test_sanitize_opaque_fourcc_keeps_opaque_formats() {
    assert_eq!(sanitize_opaque_fourcc(drm_4cc::XRGB8888), drm_4cc::XRGB8888);
    assert_eq!(sanitize_opaque_fourcc(drm_4cc::XBGR2101010), drm_4cc::XBGR2101010);
    assert_eq!(sanitize_opaque_fourcc(drm_4cc::YUYV), drm_4cc::YUYV);
    assert_eq!(sanitize_opaque_fourcc(drm_4cc::RGB565), drm_4cc::RGB565);
}

#[test]
fn sanitize_is_idempotent_on_every_listed_code() {
    for code in [drm_4cc::ARGB4444, drm_4cc::RGBA5551, drm_4cc::ABGR16161616F, drm_4cc::AVUY8888, drm_4cc::NV12] {
        let once = sanitize_opaque_fourcc(code);
        assert_eq!(sanitize_opaque_fourcc(once), once);
    }
    assert_eq!(sanitize_opaque_fourcc(drm_4cc::AVUY8888), drm_4cc::XVUY8888);
}

#[test]
fn bytes_per_pixel_of_common_formats() {
    assert_eq!(pixman::A8R8G8B8.bytes_per_pixel(), 4);
    assert_eq!(pixman::R5G6B5.bytes_per_pixel(), 2);
    assert_eq!(pixman::R8G8B8.bytes_per_pixel(), 3);
    assert_eq!(pixman::A8.bytes_per_pixel(), 1);
}

#[test]
fn bytes_per_pixel_of_float_formats_follow_the_bit_unit() {
    assert_eq!(pixman::RGBA_FLOAT.bytes_per_pixel(), 16);
    assert_eq!(pixman::RGB_FLOAT.bytes_per_pixel(), 12);
    assert_eq!(Pixman::from(0x0140_0000u32).bytes_per_pixel(), 1);
    assert_eq!(Pixman::from(0x08C0_0000u32).bytes_per_pixel(), 8);
}

#[test]
fn raw_codes_round_trip_and_unknown_codes_are_kept() {
    assert_eq!(Pixman::from(pixman::A8R8G8B8.raw()), pixman::A8R8G8B8);
    assert_eq!(Pixman::from(537036936u32), pixman::A8R8G8B8);
    let odd = Pixman::from(0x1234_5678u32);
    assert_eq!(odd.raw(), 0x1234_5678);
    assert_eq!(drm_4cc::FourCC::try_from(odd), Err(UnknownPixmanFormat));
}
