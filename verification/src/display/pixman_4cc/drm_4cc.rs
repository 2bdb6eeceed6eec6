use vstd::prelude::*;

verus! {

/// A DRM four-character pixel format code (`include/uapi/drm/drm_fourcc.h`):
/// four ASCII bytes packed little-endian into a `u32`, first byte lowest.
pub type FourCC = u32;

/// The number denoted by four bytes packed little-endian, first byte lowest.
pub open spec fn spec_fourcc(a: u8, b: u8, c: u8, d: u8) -> int {
    a + 256 * b + 65536 * c + 16777216 * d
}

/// Packs four bytes into a FourCC code, first byte in the lowest position.
pub fn fourcc_code(a: u8, b: u8, c: u8, d: u8) -> (r: FourCC)
    ensures
        r == spec_fourcc(a, b, c, d),
{
    let r: u32 = (a as u32) | ((b as u32) << 8u32) | ((c as u32) << 16u32) | ((d as u32) << 24u32);
    assert((a as u32) | ((b as u32) << 8u32) | ((c as u32) << 16u32) | ((d as u32) << 24u32)
        == (a as u32) + 256 * (b as u32) + 65536 * (c as u32) + 16777216 * (d as u32)) by (bit_vector);
    r
}

pub const INVALID: FourCC = 0;
pub const C1: FourCC = 0x20203143;
pub const C2: FourCC = 0x20203243;
pub const C4: FourCC = 0x20203443;
pub const C8: FourCC = 0x20203843;
pub const D1: FourCC = 0x20203144;
pub const D2: FourCC = 0x20203244;
pub const D4: FourCC = 0x20203444;
pub const D8: FourCC = 0x20203844;
pub const R1: FourCC = 0x20203152;
pub const R2: FourCC = 0x20203252;
pub const R4: FourCC = 0x20203452;
pub const R8: FourCC = 0x20203852;
pub const R10: FourCC = 0x20303152;
pub const R12: FourCC = 0x20323152;
pub const R16: FourCC = 0x20363152;
pub const RG88: FourCC = 0x38384752;
pub const GR88: FourCC = 0x38385247;
pub const RG1616: FourCC = 0x32334752;
pub const GR1616: FourCC = 0x32335247;
pub const RGB332: FourCC = 0x38424752;
pub const BGR233: FourCC = 0x38524742;
pub const XRGB4444: FourCC = 0x32315258;
pub const XBGR4444: FourCC = 0x32314258;
pub const RGBX4444: FourCC = 0x32315852;
pub const BGRX4444: FourCC = 0x32315842;
pub const ARGB4444: FourCC = 0x32315241;
pub const ABGR4444: FourCC = 0x32314241;
pub const RGBA4444: FourCC = 0x32314152;
pub const BGRA4444: FourCC = 0x32314142;
pub const XRGB1555: FourCC = 0x35315258;
pub const XBGR1555: FourCC = 0x35314258;
pub const RGBX5551: FourCC = 0x35315852;
pub const BGRX5551: FourCC = 0x35315842;
pub const ARGB1555: FourCC = 0x35315241;
pub const ABGR1555: FourCC = 0x35314241;
pub const RGBA5551: FourCC = 0x35314152;
pub const BGRA5551: FourCC = 0x35314142;
pub const RGB565: FourCC = 0x36314752;
pub const BGR565: FourCC = 0x36314742;
pub const RGB888: FourCC = 0x34324752;
pub const BGR888: FourCC = 0x34324742;
pub const XRGB8888: FourCC = 0x34325258;
pub const XBGR8888: FourCC = 0x34324258;
pub const RGBX8888: FourCC = 0x34325852;
pub const BGRX8888: FourCC = 0x34325842;
pub const ARGB8888: FourCC = 0x34325241;
pub const ABGR8888: FourCC = 0x34324241;
pub const RGBA8888: FourCC = 0x34324152;
pub const BGRA8888: FourCC = 0x34324142;
pub const XRGB2101010: FourCC = 0x30335258;
pub const XBGR2101010: FourCC = 0x30334258;
pub const RGBX1010102: FourCC = 0x30335852;
pub const BGRX1010102: FourCC = 0x30335842;
pub const ARGB2101010: FourCC = 0x30335241;
pub const ABGR2101010: FourCC = 0x30334241;
pub const RGBA1010102: FourCC = 0x30334152;
pub const BGRA1010102: FourCC = 0x30334142;
pub const RGB161616: FourCC = 0x38344752;
pub const BGR161616: FourCC = 0x38344742;
pub const XRGB16161616: FourCC = 0x38345258;
pub const XBGR16161616: FourCC = 0x38344258;
pub const ARGB16161616: FourCC = 0x38345241;
pub const ABGR16161616: FourCC = 0x38344241;
pub const XRGB16161616F: FourCC = 0x48345258;
pub const XBGR16161616F: FourCC = 0x48344258;
pub const ARGB16161616F: FourCC = 0x48345241;
pub const ABGR16161616F: FourCC = 0x48344241;
pub const R16F: FourCC = 0x48202052;
pub const GR1616F: FourCC = 0x48205247;
pub const BGR161616F: FourCC = 0x48524742;
pub const R32F: FourCC = 0x46202052;
pub const GR3232F: FourCC = 0x46205247;
pub const BGR323232F: FourCC = 0x46524742;
pub const ABGR32323232F: FourCC = 0x46384241;
pub const AXBXGXRX106106106106: FourCC = 0x30314241;
pub const YUYV: FourCC = 0x56595559;
pub const YVYU: FourCC = 0x55595659;
pub const UYVY: FourCC = 0x59565955;
pub const VYUY: FourCC = 0x59555956;
pub const AYUV: FourCC = 0x56555941;
pub const AVUY8888: FourCC = 0x59555641;
pub const XYUV8888: FourCC = 0x56555958;
pub const XVUY8888: FourCC = 0x59555658;
pub const VUY888: FourCC = 0x34325556;
pub const VUY101010: FourCC = 0x30335556;
pub const Y210: FourCC = 0x30313259;
pub const Y212: FourCC = 0x32313259;
pub const Y216: FourCC = 0x36313259;
pub const Y410: FourCC = 0x30313459;
pub const Y412: FourCC = 0x32313459;
pub const Y416: FourCC = 0x36313459;
pub const XVYU2101010: FourCC = 0x30335658;
pub const XVYU12_16161616: FourCC = 0x36335658;
pub const XVYU16161616: FourCC = 0x38345658;
pub const Y0L0: FourCC = 0x304c3059;
pub const X0L0: FourCC = 0x304c3058;
pub const Y0L2: FourCC = 0x324c3059;
pub const X0L2: FourCC = 0x324c3058;
pub const YUV420_8BIT: FourCC = 0x38305559;
pub const YUV420_10BIT: FourCC = 0x30315559;
pub const XRGB8888_A8: FourCC = 0x38415258;
pub const XBGR8888_A8: FourCC = 0x38414258;
pub const RGBX8888_A8: FourCC = 0x38415852;
pub const BGRX8888_A8: FourCC = 0x38415842;
pub const RGB888_A8: FourCC = 0x38413852;
pub const BGR888_A8: FourCC = 0x38413842;
pub const RGB565_A8: FourCC = 0x38413552;
pub const BGR565_A8: FourCC = 0x38413542;
pub const NV12: FourCC = 0x3231564e;
pub const NV21: FourCC = 0x3132564e;
pub const NV16: FourCC = 0x3631564e;
pub const NV61: FourCC = 0x3136564e;
pub const NV24: FourCC = 0x3432564e;
pub const NV42: FourCC = 0x3234564e;
pub const NV15: FourCC = 0x3531564e;
pub const NV20: FourCC = 0x3032564e;
pub const NV30: FourCC = 0x3033564e;
pub const P210: FourCC = 0x30313250;
pub const P010: FourCC = 0x30313050;
pub const P012: FourCC = 0x32313050;
pub const P016: FourCC = 0x36313050;
pub const P030: FourCC = 0x30333050;
pub const Q410: FourCC = 0x30313451;
pub const Q401: FourCC = 0x31303451;
pub const S010: FourCC = 0x30313053;
pub const S210: FourCC = 0x30313253;
pub const S410: FourCC = 0x30313453;
pub const S012: FourCC = 0x32313053;
pub const S212: FourCC = 0x32313253;
pub const S412: FourCC = 0x32313453;
pub const S016: FourCC = 0x36313053;
pub const S216: FourCC = 0x36313253;
pub const S416: FourCC = 0x36313453;
pub const YUV410: FourCC = 0x39565559;
pub const YVU410: FourCC = 0x39555659;
pub const YUV411: FourCC = 0x31315559;
pub const YVU411: FourCC = 0x31315659;
pub const YUV420: FourCC = 0x32315559;
pub const YVU420: FourCC = 0x32315659;
pub const YUV422: FourCC = 0x36315559;
pub const YVU422: FourCC = 0x36315659;
pub const YUV444: FourCC = 0x34325559;
pub const YVU444: FourCC = 0x34325659;

/// Every named code is the packing of its four characters.
pub proof fn lemma_codes_are_packed_characters()
    ensures
        C1 == spec_fourcc(0x43, 0x31, 0x20, 0x20),
        C2 == spec_fourcc(0x43, 0x32, 0x20, 0x20),
        C4 == spec_fourcc(0x43, 0x34, 0x20, 0x20),
        C8 == spec_fourcc(0x43, 0x38, 0x20, 0x20),
        D1 == spec_fourcc(0x44, 0x31, 0x20, 0x20),
        D2 == spec_fourcc(0x44, 0x32, 0x20, 0x20),
        D4 == spec_fourcc(0x44, 0x34, 0x20, 0x20),
        D8 == spec_fourcc(0x44, 0x38, 0x20, 0x20),
        R1 == spec_fourcc(0x52, 0x31, 0x20, 0x20),
        R2 == spec_fourcc(0x52, 0x32, 0x20, 0x20),
        R4 == spec_fourcc(0x52, 0x34, 0x20, 0x20),
        R8 == spec_fourcc(0x52, 0x38, 0x20, 0x20),
        R10 == spec_fourcc(0x52, 0x31, 0x30, 0x20),
        R12 == spec_fourcc(0x52, 0x31, 0x32, 0x20),
        R16 == spec_fourcc(0x52, 0x31, 0x36, 0x20),
        RG88 == spec_fourcc(0x52, 0x47, 0x38, 0x38),
        GR88 == spec_fourcc(0x47, 0x52, 0x38, 0x38),
        RG1616 == spec_fourcc(0x52, 0x47, 0x33, 0x32),
        GR1616 == spec_fourcc(0x47, 0x52, 0x33, 0x32),
        RGB332 == spec_fourcc(0x52, 0x47, 0x42, 0x38),
        BGR233 == spec_fourcc(0x42, 0x47, 0x52, 0x38),
        XRGB4444 == spec_fourcc(0x58, 0x52, 0x31, 0x32),
        XBGR4444 == spec_fourcc(0x58, 0x42, 0x31, 0x32),
        RGBX4444 == spec_fourcc(0x52, 0x58, 0x31, 0x32),
        BGRX4444 == spec_fourcc(0x42, 0x58, 0x31, 0x32),
        ARGB4444 == spec_fourcc(0x41, 0x52, 0x31, 0x32),
        ABGR4444 == spec_fourcc(0x41, 0x42, 0x31, 0x32),
        RGBA4444 == spec_fourcc(0x52, 0x41, 0x31, 0x32),
        BGRA4444 == spec_fourcc(0x42, 0x41, 0x31, 0x32),
        XRGB1555 == spec_fourcc(0x58, 0x52, 0x31, 0x35),
        XBGR1555 == spec_fourcc(0x58, 0x42, 0x31, 0x35),
        RGBX5551 == spec_fourcc(0x52, 0x58, 0x31, 0x35),
        BGRX5551 == spec_fourcc(0x42, 0x58, 0x31, 0x35),
        ARGB1555 == spec_fourcc(0x41, 0x52, 0x31, 0x35),
        ABGR1555 == spec_fourcc(0x41, 0x42, 0x31, 0x35),
        RGBA5551 == spec_fourcc(0x52, 0x41, 0x31, 0x35),
        BGRA5551 == spec_fourcc(0x42, 0x41, 0x31, 0x35),
        RGB565 == spec_fourcc(0x52, 0x47, 0x31, 0x36),
        BGR565 == spec_fourcc(0x42, 0x47, 0x31, 0x36),
        RGB888 == spec_fourcc(0x52, 0x47, 0x32, 0x34),
        BGR888 == spec_fourcc(0x42, 0x47, 0x32, 0x34),
        XRGB8888 == spec_fourcc(0x58, 0x52, 0x32, 0x34),
        XBGR8888 == spec_fourcc(0x58, 0x42, 0x32, 0x34),
        RGBX8888 == spec_fourcc(0x52, 0x58, 0x32, 0x34),
        BGRX8888 == spec_fourcc(0x42, 0x58, 0x32, 0x34),
        ARGB8888 == spec_fourcc(0x41, 0x52, 0x32, 0x34),
        ABGR8888 == spec_fourcc(0x41, 0x42, 0x32, 0x34),
        RGBA8888 == spec_fourcc(0x52, 0x41, 0x32, 0x34),
        BGRA8888 == spec_fourcc(0x42, 0x41, 0x32, 0x34),
        XRGB2101010 == spec_fourcc(0x58, 0x52, 0x33, 0x30),
        XBGR2101010 == spec_fourcc(0x58, 0x42, 0x33, 0x30),
        RGBX1010102 == spec_fourcc(0x52, 0x58, 0x33, 0x30),
        BGRX1010102 == spec_fourcc(0x42, 0x58, 0x33, 0x30),
        ARGB2101010 == spec_fourcc(0x41, 0x52, 0x33, 0x30),
        ABGR2101010 == spec_fourcc(0x41, 0x42, 0x33, 0x30),
        RGBA1010102 == spec_fourcc(0x52, 0x41, 0x33, 0x30),
        BGRA1010102 == spec_fourcc(0x42, 0x41, 0x33, 0x30),
        RGB161616 == spec_fourcc(0x52, 0x47, 0x34, 0x38),
        BGR161616 == spec_fourcc(0x42, 0x47, 0x34, 0x38),
        XRGB16161616 == spec_fourcc(0x58, 0x52, 0x34, 0x38),
        XBGR16161616 == spec_fourcc(0x58, 0x42, 0x34, 0x38),
        ARGB16161616 == spec_fourcc(0x41, 0x52, 0x34, 0x38),
        ABGR16161616 == spec_fourcc(0x41, 0x42, 0x34, 0x38),
        XRGB16161616F == spec_fourcc(0x58, 0x52, 0x34, 0x48),
        XBGR16161616F == spec_fourcc(0x58, 0x42, 0x34, 0x48),
        ARGB16161616F == spec_fourcc(0x41, 0x52, 0x34, 0x48),
        ABGR16161616F == spec_fourcc(0x41, 0x42, 0x34, 0x48),
        R16F == spec_fourcc(0x52, 0x20, 0x20, 0x48),
        GR1616F == spec_fourcc(0x47, 0x52, 0x20, 0x48),
        BGR161616F == spec_fourcc(0x42, 0x47, 0x52, 0x48),
        R32F == spec_fourcc(0x52, 0x20, 0x20, 0x46),
        GR3232F == spec_fourcc(0x47, 0x52, 0x20, 0x46),
        BGR323232F == spec_fourcc(0x42, 0x47, 0x52, 0x46),
        ABGR32323232F == spec_fourcc(0x41, 0x42, 0x38, 0x46),
        AXBXGXRX106106106106 == spec_fourcc(0x41, 0x42, 0x31, 0x30),
        YUYV == spec_fourcc(0x59, 0x55, 0x59, 0x56),
        YVYU == spec_fourcc(0x59, 0x56, 0x59, 0x55),
        UYVY == spec_fourcc(0x55, 0x59, 0x56, 0x59),
        VYUY == spec_fourcc(0x56, 0x59, 0x55, 0x59),
        AYUV == spec_fourcc(0x41, 0x59, 0x55, 0x56),
        AVUY8888 == spec_fourcc(0x41, 0x56, 0x55, 0x59),
        XYUV8888 == spec_fourcc(0x58, 0x59, 0x55, 0x56),
        XVUY8888 == spec_fourcc(0x58, 0x56, 0x55, 0x59),
        VUY888 == spec_fourcc(0x56, 0x55, 0x32, 0x34),
        VUY101010 == spec_fourcc(0x56, 0x55, 0x33, 0x30),
        Y210 == spec_fourcc(0x59, 0x32, 0x31, 0x30),
        Y212 == spec_fourcc(0x59, 0x32, 0x31, 0x32),
        Y216 == spec_fourcc(0x59, 0x32, 0x31, 0x36),
        Y410 == spec_fourcc(0x59, 0x34, 0x31, 0x30),
        Y412 == spec_fourcc(0x59, 0x34, 0x31, 0x32),
        Y416 == spec_fourcc(0x59, 0x34, 0x31, 0x36),
        XVYU2101010 == spec_fourcc(0x58, 0x56, 0x33, 0x30),
        XVYU12_16161616 == spec_fourcc(0x58, 0x56, 0x33, 0x36),
        XVYU16161616 == spec_fourcc(0x58, 0x56, 0x34, 0x38),
        Y0L0 == spec_fourcc(0x59, 0x30, 0x4c, 0x30),
        X0L0 == spec_fourcc(0x58, 0x30, 0x4c, 0x30),
        Y0L2 == spec_fourcc(0x59, 0x30, 0x4c, 0x32),
        X0L2 == spec_fourcc(0x58, 0x30, 0x4c, 0x32),
        YUV420_8BIT == spec_fourcc(0x59, 0x55, 0x30, 0x38),
        YUV420_10BIT == spec_fourcc(0x59, 0x55, 0x31, 0x30),
        XRGB8888_A8 == spec_fourcc(0x58, 0x52, 0x41, 0x38),
        XBGR8888_A8 == spec_fourcc(0x58, 0x42, 0x41, 0x38),
        RGBX8888_A8 == spec_fourcc(0x52, 0x58, 0x41, 0x38),
        BGRX8888_A8 == spec_fourcc(0x42, 0x58, 0x41, 0x38),
        RGB888_A8 == spec_fourcc(0x52, 0x38, 0x41, 0x38),
        BGR888_A8 == spec_fourcc(0x42, 0x38, 0x41, 0x38),
        RGB565_A8 == spec_fourcc(0x52, 0x35, 0x41, 0x38),
        BGR565_A8 == spec_fourcc(0x42, 0x35, 0x41, 0x38),
        NV12 == spec_fourcc(0x4e, 0x56, 0x31, 0x32),
        NV21 == spec_fourcc(0x4e, 0x56, 0x32, 0x31),
        NV16 == spec_fourcc(0x4e, 0x56, 0x31, 0x36),
        NV61 == spec_fourcc(0x4e, 0x56, 0x36, 0x31),
        NV24 == spec_fourcc(0x4e, 0x56, 0x32, 0x34),
        NV42 == spec_fourcc(0x4e, 0x56, 0x34, 0x32),
        NV15 == spec_fourcc(0x4e, 0x56, 0x31, 0x35),
        NV20 == spec_fourcc(0x4e, 0x56, 0x32, 0x30),
        NV30 == spec_fourcc(0x4e, 0x56, 0x33, 0x30),
        P210 == spec_fourcc(0x50, 0x32, 0x31, 0x30),
        P010 == spec_fourcc(0x50, 0x30, 0x31, 0x30),
        P012 == spec_fourcc(0x50, 0x30, 0x31, 0x32),
        P016 == spec_fourcc(0x50, 0x30, 0x31, 0x36),
        P030 == spec_fourcc(0x50, 0x30, 0x33, 0x30),
        Q410 == spec_fourcc(0x51, 0x34, 0x31, 0x30),
        Q401 == spec_fourcc(0x51, 0x34, 0x30, 0x31),
        S010 == spec_fourcc(0x53, 0x30, 0x31, 0x30),
        S210 == spec_fourcc(0x53, 0x32, 0x31, 0x30),
        S410 == spec_fourcc(0x53, 0x34, 0x31, 0x30),
        S012 == spec_fourcc(0x53, 0x30, 0x31, 0x32),
        S212 == spec_fourcc(0x53, 0x32, 0x31, 0x32),
        S412 == spec_fourcc(0x53, 0x34, 0x31, 0x32),
        S016 == spec_fourcc(0x53, 0x30, 0x31, 0x36),
        S216 == spec_fourcc(0x53, 0x32, 0x31, 0x36),
        S416 == spec_fourcc(0x53, 0x34, 0x31, 0x36),
        YUV410 == spec_fourcc(0x59, 0x55, 0x56, 0x39),
        YVU410 == spec_fourcc(0x59, 0x56, 0x55, 0x39),
        YUV411 == spec_fourcc(0x59, 0x55, 0x31, 0x31),
        YVU411 == spec_fourcc(0x59, 0x56, 0x31, 0x31),
        YUV420 == spec_fourcc(0x59, 0x55, 0x31, 0x32),
        YVU420 == spec_fourcc(0x59, 0x56, 0x31, 0x32),
        YUV422 == spec_fourcc(0x59, 0x55, 0x31, 0x36),
        YVU422 == spec_fourcc(0x59, 0x56, 0x31, 0x36),
        YUV444 == spec_fourcc(0x59, 0x55, 0x32, 0x34),
        YVU444 == spec_fourcc(0x59, 0x56, 0x32, 0x34),
{
}

} // verus!
