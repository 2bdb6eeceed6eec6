pub mod drm_4cc;
pub mod pixman;

pub use self::drm_4cc::FourCC;
pub use self::pixman::Pixman;

use vstd::prelude::*;

verus! {

/// A pixman format with no DRM FourCC counterpart.
#[derive(Debug, Clone, Copy, PartialEq, Eq, Structural)]
pub struct UnknownPixmanFormat;

/// The opaque counterpart of an alpha-bearing RGB FourCC, or the code itself.
pub open spec fn spec_sanitize_opaque(fourcc: FourCC) -> FourCC {
    if fourcc == drm_4cc::ARGB4444 {
        drm_4cc::XRGB4444
    } else if fourcc == drm_4cc::ABGR4444 {
        drm_4cc::XBGR4444
    } else if fourcc == drm_4cc::RGBA4444 {
        drm_4cc::RGBX4444
    } else if fourcc == drm_4cc::BGRA4444 {
        drm_4cc::BGRX4444
    } else if fourcc == drm_4cc::ARGB1555 {
        drm_4cc::XRGB1555
    } else if fourcc == drm_4cc::ABGR1555 {
        drm_4cc::XBGR1555
    } else if fourcc == drm_4cc::RGBA5551 {
        drm_4cc::RGBX5551
    } else if fourcc == drm_4cc::BGRA5551 {
        drm_4cc::BGRX5551
    } else if fourcc == drm_4cc::ARGB8888 {
        drm_4cc::XRGB8888
    } else if fourcc == drm_4cc::ABGR8888 {
        drm_4cc::XBGR8888
    } else if fourcc == drm_4cc::RGBA8888 {
        drm_4cc::RGBX8888
    } else if fourcc == drm_4cc::BGRA8888 {
        drm_4cc::BGRX8888
    } else if fourcc == drm_4cc::ARGB2101010 {
        drm_4cc::XRGB2101010
    } else if fourcc == drm_4cc::ABGR2101010 {
        drm_4cc::XBGR2101010
    } else if fourcc == drm_4cc::RGBA1010102 {
        drm_4cc::RGBX1010102
    } else if fourcc == drm_4cc::BGRA1010102 {
        drm_4cc::BGRX1010102
    } else if fourcc == drm_4cc::ARGB16161616 {
        drm_4cc::XRGB16161616
    } else if fourcc == drm_4cc::ABGR16161616 {
        drm_4cc::XBGR16161616
    } else if fourcc == drm_4cc::ARGB16161616F {
        drm_4cc::XRGB16161616F
    } else if fourcc == drm_4cc::ABGR16161616F {
        drm_4cc::XBGR16161616F
    } else if fourcc == drm_4cc::AVUY8888 {
        drm_4cc::XVUY8888
    } else {
        fourcc
    }
}

/// Maps alpha-bearing RGB formats to their opaque "X" counterparts when compatible.
///
/// This avoids unintended composition with transparent guest content on DMABUF paths.
pub fn sanitize_opaque_fourcc(fourcc: FourCC) -> (r: FourCC)
    ensures
        r == spec_sanitize_opaque(fourcc),
{
    if fourcc == drm_4cc::ARGB4444 {
        drm_4cc::XRGB4444
    } else if fourcc == drm_4cc::ABGR4444 {
        drm_4cc::XBGR4444
    } else if fourcc == drm_4cc::RGBA4444 {
        drm_4cc::RGBX4444
    } else if fourcc == drm_4cc::BGRA4444 {
        drm_4cc::BGRX4444
    } else if fourcc == drm_4cc::ARGB1555 {
        drm_4cc::XRGB1555
    } else if fourcc == drm_4cc::ABGR1555 {
        drm_4cc::XBGR1555
    } else if fourcc == drm_4cc::RGBA5551 {
        drm_4cc::RGBX5551
    } else if fourcc == drm_4cc::BGRA5551 {
        drm_4cc::BGRX5551
    } else if fourcc == drm_4cc::ARGB8888 {
        drm_4cc::XRGB8888
    } else if fourcc == drm_4cc::ABGR8888 {
        drm_4cc::XBGR8888
    } else if fourcc == drm_4cc::RGBA8888 {
        drm_4cc::RGBX8888
    } else if fourcc == drm_4cc::BGRA8888 {
        drm_4cc::BGRX8888
    } else if fourcc == drm_4cc::ARGB2101010 {
        drm_4cc::XRGB2101010
    } else if fourcc == drm_4cc::ABGR2101010 {
        drm_4cc::XBGR2101010
    } else if fourcc == drm_4cc::RGBA1010102 {
        drm_4cc::RGBX1010102
    } else if fourcc == drm_4cc::BGRA1010102 {
        drm_4cc::BGRX1010102
    } else if fourcc == drm_4cc::ARGB16161616 {
        drm_4cc::XRGB16161616
    } else if fourcc == drm_4cc::ABGR16161616 {
        drm_4cc::XBGR16161616
    } else if fourcc == drm_4cc::ARGB16161616F {
        drm_4cc::XRGB16161616F
    } else if fourcc == drm_4cc::ABGR16161616F {
        drm_4cc::XBGR16161616F
    } else if fourcc == drm_4cc::AVUY8888 {
        drm_4cc::XVUY8888
    } else {
        fourcc
    }
}

/// The DRM FourCC of a pixman code, when the pair is a known memory-layout match.
pub open spec fn spec_pixman_to_fourcc(raw: u32) -> Option<FourCC> {
    if raw == 537036936 {
        Some(drm_4cc::ARGB8888)
    } else if raw == 537102472 {
        Some(drm_4cc::ABGR8888)
    } else if raw == 537430152 {
        Some(drm_4cc::BGRA8888)
    } else if raw == 537495688 {
        Some(drm_4cc::RGBA8888)
    } else if raw == 537004168 {
        Some(drm_4cc::XRGB8888)
    } else if raw == 537069704 {
        Some(drm_4cc::XBGR8888)
    } else if raw == 537397384 {
        Some(drm_4cc::BGRX8888)
    } else if raw == 537462920 {
        Some(drm_4cc::RGBX8888)
    } else if raw == 268567909 {
        Some(drm_4cc::RGB565)
    } else if raw == 268633445 {
        Some(drm_4cc::BGR565)
    } else if raw == 268571989 {
        Some(drm_4cc::ARGB1555)
    } else if raw == 268567893 {
        Some(drm_4cc::XRGB1555)
    } else if raw == 268637525 {
        Some(drm_4cc::ABGR1555)
    } else if raw == 268633429 {
        Some(drm_4cc::XBGR1555)
    } else if raw == 268584004 {
        Some(drm_4cc::ARGB4444)
    } else if raw == 268567620 {
        Some(drm_4cc::XRGB4444)
    } else if raw == 268649540 {
        Some(drm_4cc::ABGR4444)
    } else if raw == 268633156 {
        Some(drm_4cc::XBGR4444)
    } else if raw == 402786440 {
        Some(drm_4cc::RGB888)
    } else if raw == 402851976 {
        Some(drm_4cc::BGR888)
    } else if raw == 537012906 {
        Some(drm_4cc::ARGB2101010)
    } else if raw == 537004714 {
        Some(drm_4cc::XRGB2101010)
    } else if raw == 537078442 {
        Some(drm_4cc::ABGR2101010)
    } else if raw == 537070250 {
        Some(drm_4cc::XBGR2101010)
    } else if raw == 268828672 {
        Some(drm_4cc::YUYV)
    } else if raw == 201785344 {
        Some(drm_4cc::YVU420)
    } else if raw == 134479872 {
        Some(drm_4cc::C8)
    } else {
        None
    }
}

/// Converts a pixman format to the DRM FourCC with the same memory layout.
pub fn pixman_to_fourcc(p: Pixman) -> (r: Result<FourCC, UnknownPixmanFormat>)
    ensures
        r == (match spec_pixman_to_fourcc(p.spec_raw()) {
            Some(f) => Ok::<FourCC, UnknownPixmanFormat>(f),
            None => Err(UnknownPixmanFormat),
        }),
{
    let raw = p.raw();
    if raw == 537036936 {
        Ok(drm_4cc::ARGB8888)
    } else if raw == 537102472 {
        Ok(drm_4cc::ABGR8888)
    } else if raw == 537430152 {
        Ok(drm_4cc::BGRA8888)
    } else if raw == 537495688 {
        Ok(drm_4cc::RGBA8888)
    } else if raw == 537004168 {
        Ok(drm_4cc::XRGB8888)
    } else if raw == 537069704 {
        Ok(drm_4cc::XBGR8888)
    } else if raw == 537397384 {
        Ok(drm_4cc::BGRX8888)
    } else if raw == 537462920 {
        Ok(drm_4cc::RGBX8888)
    } else if raw == 268567909 {
        Ok(drm_4cc::RGB565)
    } else if raw == 268633445 {
        Ok(drm_4cc::BGR565)
    } else if raw == 268571989 {
        Ok(drm_4cc::ARGB1555)
    } else if raw == 268567893 {
        Ok(drm_4cc::XRGB1555)
    } else if raw == 268637525 {
        Ok(drm_4cc::ABGR1555)
    } else if raw == 268633429 {
        Ok(drm_4cc::XBGR1555)
    } else if raw == 268584004 {
        Ok(drm_4cc::ARGB4444)
    } else if raw == 268567620 {
        Ok(drm_4cc::XRGB4444)
    } else if raw == 268649540 {
        Ok(drm_4cc::ABGR4444)
    } else if raw == 268633156 {
        Ok(drm_4cc::XBGR4444)
    } else if raw == 402786440 {
        Ok(drm_4cc::RGB888)
    } else if raw == 402851976 {
        Ok(drm_4cc::BGR888)
    } else if raw == 537012906 {
        Ok(drm_4cc::ARGB2101010)
    } else if raw == 537004714 {
        Ok(drm_4cc::XRGB2101010)
    } else if raw == 537078442 {
        Ok(drm_4cc::ABGR2101010)
    } else if raw == 537070250 {
        Ok(drm_4cc::XBGR2101010)
    } else if raw == 268828672 {
        Ok(drm_4cc::YUYV)
    } else if raw == 201785344 {
        Ok(drm_4cc::YVU420)
    } else if raw == 134479872 {
        Ok(drm_4cc::C8)
    } else {
        Err(UnknownPixmanFormat)
    }
}

impl TryFrom<Pixman> for FourCC {
    type Error = UnknownPixmanFormat;

    fn try_from(p: Pixman) -> (r: Result<FourCC, UnknownPixmanFormat>) {
        pixman_to_fourcc(p)
    }
}

impl vstd::std_specs::convert::TryFromSpecImpl<Pixman> for FourCC {
    open spec fn obeys_try_from_spec() -> bool {
        true
    }

    open spec fn try_from_spec(p: Pixman) -> Result<FourCC, UnknownPixmanFormat> {
        match spec_pixman_to_fourcc(p.spec_raw()) {
            Some(f) => Ok(f),
            None => Err(UnknownPixmanFormat),
        }
    }
}

/// Sanitizing is idempotent: the opaque counterpart of a format is already opaque, so a
/// second pass changes nothing.
pub proof fn law_sanitize_idempotent(fourcc: FourCC)
    ensures
        spec_sanitize_opaque(spec_sanitize_opaque(fourcc)) == spec_sanitize_opaque(fourcc),
{
}

/// Distinct pixman formats never share a DRM FourCC; in particular an `X` format and
/// its `A` twin map to different codes.
pub proof fn law_pixman_to_fourcc_injective(a: u32, b: u32)
    requires
        spec_pixman_to_fourcc(a) is Some,
        spec_pixman_to_fourcc(a) == spec_pixman_to_fourcc(b),
    ensures
        a == b,
{
}


/// Character `i` (0 to 3, first character lowest) of a FourCC code, as a number.
pub open spec fn fourcc_char(f: FourCC, i: int) -> int {
    if i == 0 {
        (f as int) % 256
    } else if i == 1 {
        (f as int / 256) % 256
    } else if i == 2 {
        (f as int / 65536) % 256
    } else {
        f as int / 16777216
    }
}

/// Sanitizing only drops alpha: the result is the format itself, or the same code with
/// its alpha channel `A` (first or second character) turned into the padding `X`, every
/// other character (the channel order and the bit widths) kept.
pub proof fn law_sanitize_only_drops_alpha(f: FourCC)
    ensures
        ({
            let r = spec_sanitize_opaque(f);
            ||| r == f
            ||| {
                &&& fourcc_char(f, 0) == 'A' as int
                &&& fourcc_char(r, 0) == 'X' as int
                &&& forall|i: int| 1 <= i < 4 ==> fourcc_char(r, i) == fourcc_char(f, i)
            }
            ||| {
                &&& fourcc_char(f, 1) == 'A' as int
                &&& fourcc_char(r, 1) == 'X' as int
                &&& forall|i: int| 0 <= i < 4 && i != 1 ==> fourcc_char(r, i) == fourcc_char(f, i)
            }
        }),
{
}

/// Whether the last two characters of a FourCC are `d0` and `d1`.
pub open spec fn fourcc_depth_is(f: FourCC, d0: char, d1: char) -> bool {
    fourcc_char(f, 2) == d0 as int && fourcc_char(f, 3) == d1 as int
}

/// Whether a FourCC names a packed RGB layout with an alpha channel that has an opaque
/// twin: alpha in the highest bits (`AR`/`AB` with 12, 15, 24, 30, 48 or 4H) or in the
/// lowest bits (`RA`/`BA` with 12, 15, 24 or 30).
pub open spec fn has_opaque_rgb_twin(f: FourCC) -> bool {
    let c0 = fourcc_char(f, 0);
    let c1 = fourcc_char(f, 1);
    let short_depth = fourcc_depth_is(f, '1', '2') || fourcc_depth_is(f, '1', '5') || fourcc_depth_is(f, '2', '4')
        || fourcc_depth_is(f, '3', '0');
    ||| c0 == 'A' as int && (c1 == 'R' as int || c1 == 'B' as int) && (short_depth || fourcc_depth_is(f, '4', '8')
        || fourcc_depth_is(f, '4', 'H'))
    ||| (c0 == 'R' as int || c0 == 'B' as int) && c1 == 'A' as int && short_depth
}

/// Every RGB format with alpha that has an opaque twin is sanitized: the result differs
/// from the input, so (by [`law_sanitize_only_drops_alpha`]) it is the input with `A`
/// turned into `X`.
pub proof fn law_sanitize_drops_rgb_alpha(f: FourCC)
    requires
        has_opaque_rgb_twin(f),
    ensures
        spec_sanitize_opaque(f) != f,
{
}

/// Bits per pixel of a pixman code: the top byte.
pub open spec fn pixman_bpp(raw: u32) -> int {
    raw as int / 0x100_0000
}

/// The pixman format type (libpixman's `PIXMAN_TYPE_*`): 2 ARGB, 3 ABGR, 4 colour
/// index, 6 YUY2, 7 YV12, 8 BGRA, 9 RGBA.
pub open spec fn pixman_type(raw: u32) -> int {
    (raw as int / 0x1_0000) % 256
}

/// Width in bits of the alpha channel of a pixman code.
pub open spec fn pixman_alpha_bits(raw: u32) -> int {
    (raw as int / 0x1000) % 16
}

/// Width in bits of the red, green and blue channels of a pixman code, together.
pub open spec fn pixman_color_bits(raw: u32) -> int {
    (raw as int / 0x100) % 16 + (raw as int / 0x10) % 16 + (raw as int) % 16
}

/// Whether a pixman code has alpha or unused padding bits, besides its colour channels.
pub open spec fn pixman_has_fourth(raw: u32) -> bool {
    pixman_alpha_bits(raw) > 0 || pixman_bpp(raw) > pixman_color_bits(raw)
}

/// The letter of the fourth channel of a pixman code: `A` for alpha, `X` for padding.
pub open spec fn pixman_fourth_letter(raw: u32) -> int {
    if pixman_alpha_bits(raw) > 0 {
        'A' as int
    } else {
        'X' as int
    }
}

/// The first two letters of the DRM name of the RGB layout of a pixman code: the channel
/// in the highest bits, then the fourth channel when it sits in the lowest bits, else the
/// next channel down.
pub open spec fn pixman_rgb_letters(raw: u32) -> (int, int) {
    let t = pixman_type(raw);
    if t == 2 {
        if pixman_has_fourth(raw) {
            (pixman_fourth_letter(raw), 'R' as int)
        } else {
            ('R' as int, 'G' as int)
        }
    } else if t == 3 {
        if pixman_has_fourth(raw) {
            (pixman_fourth_letter(raw), 'B' as int)
        } else {
            ('B' as int, 'G' as int)
        }
    } else if t == 8 {
        ('B' as int, pixman_fourth_letter(raw))
    } else {
        ('R' as int, pixman_fourth_letter(raw))
    }
}

/// A pixman format maps to the DRM FourCC with the same memory layout. For an RGB format
/// (types ARGB, ABGR, BGRA, RGBA), the FourCC names the same channel order, from the
/// highest bits down, and its digits are the colour depth: `R8G8B8` gives `RG24`,
/// `B8G8R8` gives `BG24`, `A8B8G8R8` gives `AB24`, `B8G8R8X8` gives `BX24`. A colour
/// index format gives `C` and its bits per pixel, YUY2 gives `YUYV` and YV12 gives
/// `YV12` (ASCII `0x59 0x55 0x59 0x56` and `0x59 0x56 0x31 0x32`).
pub proof fn law_pixman_to_fourcc_keeps_layout(raw: u32)
    requires
        spec_pixman_to_fourcc(raw) is Some,
    ensures
        ({
            let f = spec_pixman_to_fourcc(raw)->0;
            let t = pixman_type(raw);
            &&& (t == 2 || t == 3 || t == 8 || t == 9) ==> {
                &&& fourcc_char(f, 0) == pixman_rgb_letters(raw).0
                &&& fourcc_char(f, 1) == pixman_rgb_letters(raw).1
                &&& fourcc_char(f, 2) == '0' as int + pixman_color_bits(raw) / 10
                &&& fourcc_char(f, 3) == '0' as int + pixman_color_bits(raw) % 10
            }
            &&& t == 4 ==> fourcc_char(f, 0) == 'C' as int && fourcc_char(f, 1) == '0' as int + pixman_bpp(raw)
            &&& t == 6 ==> f == drm_4cc::spec_fourcc(0x59, 0x55, 0x59, 0x56)
            &&& t == 7 ==> f == drm_4cc::spec_fourcc(0x59, 0x56, 0x31, 0x32)
            &&& (t == 2 || t == 3 || t == 4 || t == 6 || t == 7 || t == 8 || t == 9)
        }),
{
}

} // verus!
