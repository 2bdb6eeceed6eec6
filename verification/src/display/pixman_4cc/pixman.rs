use vstd::prelude::*;

verus! {

pub use self::Pixman::{
    RGBA_FLOAT,
    RGB_FLOAT,
    A8R8G8B8,
    X8R8G8B8,
    A8B8G8R8,
    X8B8G8R8,
    B8G8R8A8,
    B8G8R8X8,
    R8G8B8A8,
    R8G8B8X8,
    X14R6G6B6,
    X2R10G10B10,
    A2R10G10B10,
    X2B10G10R10,
    A2B10G10R10,
    A8R8G8B8_S_RGB,
    R8G8B8,
    B8G8R8,
    R5G6B5,
    B5G6R5,
    A1R5G5B5,
    X1R5G5B5,
    A1B5G5R5,
    X1B5G5R5,
    A4R4G4B4,
    X4R4G4B4,
    A4B4G4R4,
    X4B4G4R4,
    A8,
    R3G3B2,
    B2G3R3,
    A2R2G2B2,
    A2B2G2R2,
    C8,
    G8,
    X4A4,
    A4,
    R1G2B1,
    B1G2R1,
    A1R1G1B1,
    A1B1G1R1,
    C4,
    G4,
    A1,
    G1,
    YUY2,
    YV12,
};
pub use self::Pixman::C8 as X4C4;
pub use self::Pixman::G8 as X4G4;

/// A libpixman pixel format code.
///
/// Each named code is a variant; `Other` carries any code that has no name.
/// A value is canonical (`wf`) when `Other` never carries a named code, which is
/// what [`Pixman::from`] produces.
#[allow(non_camel_case_types)]
#[derive(Debug, Clone, Copy, PartialEq, Eq, Structural)]
pub enum Pixman {
    RGBA_FLOAT,
    RGB_FLOAT,
    A8R8G8B8,
    X8R8G8B8,
    A8B8G8R8,
    X8B8G8R8,
    B8G8R8A8,
    B8G8R8X8,
    R8G8B8A8,
    R8G8B8X8,
    X14R6G6B6,
    X2R10G10B10,
    A2R10G10B10,
    X2B10G10R10,
    A2B10G10R10,
    A8R8G8B8_S_RGB,
    R8G8B8,
    B8G8R8,
    R5G6B5,
    B5G6R5,
    A1R5G5B5,
    X1R5G5B5,
    A1B5G5R5,
    X1B5G5R5,
    A4R4G4B4,
    X4R4G4B4,
    A4B4G4R4,
    X4B4G4R4,
    A8,
    R3G3B2,
    B2G3R3,
    A2R2G2B2,
    A2B2G2R2,
    C8,
    G8,
    X4A4,
    A4,
    R1G2B1,
    B1G2R1,
    A1R1G1B1,
    A1B1G1R1,
    C4,
    G4,
    A1,
    G1,
    YUY2,
    YV12,
    Other(u32),
}

/// The code of a named pixman format, if `raw` is one.
pub open spec fn spec_named(raw: u32) -> Option<Pixman> {
    if raw == 281756740 {
        Some(Pixman::RGBA_FLOAT)
    } else if raw == 214631492 {
        Some(Pixman::RGB_FLOAT)
    } else if raw == 537036936 {
        Some(Pixman::A8R8G8B8)
    } else if raw == 537004168 {
        Some(Pixman::X8R8G8B8)
    } else if raw == 537102472 {
        Some(Pixman::A8B8G8R8)
    } else if raw == 537069704 {
        Some(Pixman::X8B8G8R8)
    } else if raw == 537430152 {
        Some(Pixman::B8G8R8A8)
    } else if raw == 537397384 {
        Some(Pixman::B8G8R8X8)
    } else if raw == 537495688 {
        Some(Pixman::R8G8B8A8)
    } else if raw == 537462920 {
        Some(Pixman::R8G8B8X8)
    } else if raw == 537003622 {
        Some(Pixman::X14R6G6B6)
    } else if raw == 537004714 {
        Some(Pixman::X2R10G10B10)
    } else if raw == 537012906 {
        Some(Pixman::A2R10G10B10)
    } else if raw == 537070250 {
        Some(Pixman::X2B10G10R10)
    } else if raw == 537078442 {
        Some(Pixman::A2B10G10R10)
    } else if raw == 537561224 {
        Some(Pixman::A8R8G8B8_S_RGB)
    } else if raw == 402786440 {
        Some(Pixman::R8G8B8)
    } else if raw == 402851976 {
        Some(Pixman::B8G8R8)
    } else if raw == 268567909 {
        Some(Pixman::R5G6B5)
    } else if raw == 268633445 {
        Some(Pixman::B5G6R5)
    } else if raw == 268571989 {
        Some(Pixman::A1R5G5B5)
    } else if raw == 268567893 {
        Some(Pixman::X1R5G5B5)
    } else if raw == 268637525 {
        Some(Pixman::A1B5G5R5)
    } else if raw == 268633429 {
        Some(Pixman::X1B5G5R5)
    } else if raw == 268584004 {
        Some(Pixman::A4R4G4B4)
    } else if raw == 268567620 {
        Some(Pixman::X4R4G4B4)
    } else if raw == 268649540 {
        Some(Pixman::A4B4G4R4)
    } else if raw == 268633156 {
        Some(Pixman::X4B4G4R4)
    } else if raw == 134316032 {
        Some(Pixman::A8)
    } else if raw == 134349618 {
        Some(Pixman::R3G3B2)
    } else if raw == 134415154 {
        Some(Pixman::B2G3R3)
    } else if raw == 134357538 {
        Some(Pixman::A2R2G2B2)
    } else if raw == 134423074 {
        Some(Pixman::A2B2G2R2)
    } else if raw == 134479872 {
        Some(Pixman::C8)
    } else if raw == 134545408 {
        Some(Pixman::G8)
    } else if raw == 134299648 {
        Some(Pixman::X4A4)
    } else if raw == 67190784 {
        Some(Pixman::A4)
    } else if raw == 67240225 {
        Some(Pixman::R1G2B1)
    } else if raw == 67305761 {
        Some(Pixman::B1G2R1)
    } else if raw == 67244305 {
        Some(Pixman::A1R1G1B1)
    } else if raw == 67309841 {
        Some(Pixman::A1B1G1R1)
    } else if raw == 67371008 {
        Some(Pixman::C4)
    } else if raw == 67436544 {
        Some(Pixman::G4)
    } else if raw == 16846848 {
        Some(Pixman::A1)
    } else if raw == 17104896 {
        Some(Pixman::G1)
    } else if raw == 268828672 {
        Some(Pixman::YUY2)
    } else if raw == 201785344 {
        Some(Pixman::YV12)
    } else {
        None
    }
}

/// Whether `raw` carries premultiplied alpha.
pub open spec fn spec_premultiplied(raw: u32) -> bool {
    raw == 537036936
        || raw == 537102472
        || raw == 537430152
        || raw == 537495688
        || raw == 134357538
        || raw == 134423074
        || raw == 67244305
        || raw == 67309841
        || raw == 537012906
        || raw == 537078442
        || raw == 281756740
        || raw == 268571989
        || raw == 268637525
        || raw == 268584004
        || raw == 268649540
        || raw == 134316032
        || raw == 67190784
        || raw == 16846848
}

/// Bits per pixel of a pixman code, as libpixman reads it: the depth in the top byte,
/// scaled by the unit in bits 22 and 23 (a power of two up to 8, which the float formats
/// use).
pub open spec fn spec_bits_per_pixel(raw: u32) -> int {
    let depth = raw / 0x100_0000;
    let unit = (raw / 0x40_0000) % 4;
    depth * (if unit == 0 {
        1int
    } else if unit == 1 {
        2int
    } else if unit == 2 {
        4int
    } else {
        8int
    })
}

/// Bytes per pixel of a pixman code: its bits per pixel, rounded up to whole bytes.
pub open spec fn spec_bytes_per_pixel(raw: u32) -> int {
    (spec_bits_per_pixel(raw) + 7) / 8
}

impl Pixman {
    /// The numeric pixman code.
    pub open spec fn spec_raw(self) -> u32 {
        match self {
            Pixman::RGBA_FLOAT => 281756740,
            Pixman::RGB_FLOAT => 214631492,
            Pixman::A8R8G8B8 => 537036936,
            Pixman::X8R8G8B8 => 537004168,
            Pixman::A8B8G8R8 => 537102472,
            Pixman::X8B8G8R8 => 537069704,
            Pixman::B8G8R8A8 => 537430152,
            Pixman::B8G8R8X8 => 537397384,
            Pixman::R8G8B8A8 => 537495688,
            Pixman::R8G8B8X8 => 537462920,
            Pixman::X14R6G6B6 => 537003622,
            Pixman::X2R10G10B10 => 537004714,
            Pixman::A2R10G10B10 => 537012906,
            Pixman::X2B10G10R10 => 537070250,
            Pixman::A2B10G10R10 => 537078442,
            Pixman::A8R8G8B8_S_RGB => 537561224,
            Pixman::R8G8B8 => 402786440,
            Pixman::B8G8R8 => 402851976,
            Pixman::R5G6B5 => 268567909,
            Pixman::B5G6R5 => 268633445,
            Pixman::A1R5G5B5 => 268571989,
            Pixman::X1R5G5B5 => 268567893,
            Pixman::A1B5G5R5 => 268637525,
            Pixman::X1B5G5R5 => 268633429,
            Pixman::A4R4G4B4 => 268584004,
            Pixman::X4R4G4B4 => 268567620,
            Pixman::A4B4G4R4 => 268649540,
            Pixman::X4B4G4R4 => 268633156,
            Pixman::A8 => 134316032,
            Pixman::R3G3B2 => 134349618,
            Pixman::B2G3R3 => 134415154,
            Pixman::A2R2G2B2 => 134357538,
            Pixman::A2B2G2R2 => 134423074,
            Pixman::C8 => 134479872,
            Pixman::G8 => 134545408,
            Pixman::X4A4 => 134299648,
            Pixman::A4 => 67190784,
            Pixman::R1G2B1 => 67240225,
            Pixman::B1G2R1 => 67305761,
            Pixman::A1R1G1B1 => 67244305,
            Pixman::A1B1G1R1 => 67309841,
            Pixman::C4 => 67371008,
            Pixman::G4 => 67436544,
            Pixman::A1 => 16846848,
            Pixman::G1 => 17104896,
            Pixman::YUY2 => 268828672,
            Pixman::YV12 => 201785344,
            Pixman::Other(raw) => raw,
        }
    }

    /// Canonical form: `Other` never carries a named code.
    pub open spec fn wf(self) -> bool {
        match self {
            Pixman::Other(raw) => spec_named(raw) is None,
            _ => true,
        }
    }

    /// Returns the numeric pixman code.
    pub fn raw(&self) -> (r: u32)
        ensures
            r == self.spec_raw(),
    {
        match *self {
            Pixman::RGBA_FLOAT => 281756740,
            Pixman::RGB_FLOAT => 214631492,
            Pixman::A8R8G8B8 => 537036936,
            Pixman::X8R8G8B8 => 537004168,
            Pixman::A8B8G8R8 => 537102472,
            Pixman::X8B8G8R8 => 537069704,
            Pixman::B8G8R8A8 => 537430152,
            Pixman::B8G8R8X8 => 537397384,
            Pixman::R8G8B8A8 => 537495688,
            Pixman::R8G8B8X8 => 537462920,
            Pixman::X14R6G6B6 => 537003622,
            Pixman::X2R10G10B10 => 537004714,
            Pixman::A2R10G10B10 => 537012906,
            Pixman::X2B10G10R10 => 537070250,
            Pixman::A2B10G10R10 => 537078442,
            Pixman::A8R8G8B8_S_RGB => 537561224,
            Pixman::R8G8B8 => 402786440,
            Pixman::B8G8R8 => 402851976,
            Pixman::R5G6B5 => 268567909,
            Pixman::B5G6R5 => 268633445,
            Pixman::A1R5G5B5 => 268571989,
            Pixman::X1R5G5B5 => 268567893,
            Pixman::A1B5G5R5 => 268637525,
            Pixman::X1B5G5R5 => 268633429,
            Pixman::A4R4G4B4 => 268584004,
            Pixman::X4R4G4B4 => 268567620,
            Pixman::A4B4G4R4 => 268649540,
            Pixman::X4B4G4R4 => 268633156,
            Pixman::A8 => 134316032,
            Pixman::R3G3B2 => 134349618,
            Pixman::B2G3R3 => 134415154,
            Pixman::A2R2G2B2 => 134357538,
            Pixman::A2B2G2R2 => 134423074,
            Pixman::C8 => 134479872,
            Pixman::G8 => 134545408,
            Pixman::X4A4 => 134299648,
            Pixman::A4 => 67190784,
            Pixman::R1G2B1 => 67240225,
            Pixman::B1G2R1 => 67305761,
            Pixman::A1R1G1B1 => 67244305,
            Pixman::A1B1G1R1 => 67309841,
            Pixman::C4 => 67371008,
            Pixman::G4 => 67436544,
            Pixman::A1 => 16846848,
            Pixman::G1 => 17104896,
            Pixman::YUY2 => 268828672,
            Pixman::YV12 => 201785344,
            Pixman::Other(raw) => raw,
        }
    }

    /// Whether the format carries premultiplied alpha (`A` formats; `X` and alpha-less formats do not).
    pub fn is_premultiplied(&self) -> (r: bool)
        ensures
            r == spec_premultiplied(self.spec_raw()),
    {
        let raw = self.raw();
        raw == 537036936
            || raw == 537102472
            || raw == 537430152
            || raw == 537495688
            || raw == 134357538
            || raw == 134423074
            || raw == 67244305
            || raw == 67309841
            || raw == 537012906
            || raw == 537078442
            || raw == 281756740
            || raw == 268571989
            || raw == 268637525
            || raw == 268584004
            || raw == 268649540
            || raw == 134316032
            || raw == 67190784
            || raw == 16846848
    }

    /// Bytes per pixel: the bits per pixel of the code (see [`spec_bits_per_pixel`]),
    /// rounded up to whole bytes.
    pub fn bytes_per_pixel(&self) -> (r: usize)
        ensures
            r == spec_bytes_per_pixel(self.spec_raw()),
            r <= 255,
    {
        let raw = self.raw();
        let depth = (raw >> 24u32) & 0xFFu32;
        let unit = (raw >> 22u32) & 3u32;
        assert(depth <= 255 && unit <= 3) by (bit_vector)
            requires
                depth == (raw >> 24u32) & 0xFFu32,
                unit == (raw >> 22u32) & 3u32,
        ;
        let bits = depth << unit;
        assert(depth == raw / 0x100_0000) by (bit_vector)
            requires
                depth == (raw >> 24u32) & 0xFFu32,
        ;
        assert(unit == (raw / 0x40_0000) % 4) by (bit_vector)
            requires
                unit == (raw >> 22u32) & 3u32,
        ;
        assert(bits == depth * (if unit == 0 {
            1u32
        } else if unit == 1 {
            2u32
        } else if unit == 2 {
            4u32
        } else {
            8u32
        }) && bits <= 2040) by (bit_vector)
            requires
                depth <= 255,
                unit <= 3,
                bits == depth << unit,
        ;
        ((bits + 7) / 8) as usize
    }
}

/// Reads a pixman code, naming it when it is a known format.
pub fn from_raw(raw: u32) -> (p: Pixman)
    ensures
        p.spec_raw() == raw,
        p.wf(),
        p == (match spec_named(raw) {
            Some(n) => n,
            None => Pixman::Other(raw),
        }),
{
    if raw == 281756740 {
        Pixman::RGBA_FLOAT
    } else if raw == 214631492 {
        Pixman::RGB_FLOAT
    } else if raw == 537036936 {
        Pixman::A8R8G8B8
    } else if raw == 537004168 {
        Pixman::X8R8G8B8
    } else if raw == 537102472 {
        Pixman::A8B8G8R8
    } else if raw == 537069704 {
        Pixman::X8B8G8R8
    } else if raw == 537430152 {
        Pixman::B8G8R8A8
    } else if raw == 537397384 {
        Pixman::B8G8R8X8
    } else if raw == 537495688 {
        Pixman::R8G8B8A8
    } else if raw == 537462920 {
        Pixman::R8G8B8X8
    } else if raw == 537003622 {
        Pixman::X14R6G6B6
    } else if raw == 537004714 {
        Pixman::X2R10G10B10
    } else if raw == 537012906 {
        Pixman::A2R10G10B10
    } else if raw == 537070250 {
        Pixman::X2B10G10R10
    } else if raw == 537078442 {
        Pixman::A2B10G10R10
    } else if raw == 537561224 {
        Pixman::A8R8G8B8_S_RGB
    } else if raw == 402786440 {
        Pixman::R8G8B8
    } else if raw == 402851976 {
        Pixman::B8G8R8
    } else if raw == 268567909 {
        Pixman::R5G6B5
    } else if raw == 268633445 {
        Pixman::B5G6R5
    } else if raw == 268571989 {
        Pixman::A1R5G5B5
    } else if raw == 268567893 {
        Pixman::X1R5G5B5
    } else if raw == 268637525 {
        Pixman::A1B5G5R5
    } else if raw == 268633429 {
        Pixman::X1B5G5R5
    } else if raw == 268584004 {
        Pixman::A4R4G4B4
    } else if raw == 268567620 {
        Pixman::X4R4G4B4
    } else if raw == 268649540 {
        Pixman::A4B4G4R4
    } else if raw == 268633156 {
        Pixman::X4B4G4R4
    } else if raw == 134316032 {
        Pixman::A8
    } else if raw == 134349618 {
        Pixman::R3G3B2
    } else if raw == 134415154 {
        Pixman::B2G3R3
    } else if raw == 134357538 {
        Pixman::A2R2G2B2
    } else if raw == 134423074 {
        Pixman::A2B2G2R2
    } else if raw == 134479872 {
        Pixman::C8
    } else if raw == 134545408 {
        Pixman::G8
    } else if raw == 134299648 {
        Pixman::X4A4
    } else if raw == 67190784 {
        Pixman::A4
    } else if raw == 67240225 {
        Pixman::R1G2B1
    } else if raw == 67305761 {
        Pixman::B1G2R1
    } else if raw == 67244305 {
        Pixman::A1R1G1B1
    } else if raw == 67309841 {
        Pixman::A1B1G1R1
    } else if raw == 67371008 {
        Pixman::C4
    } else if raw == 67436544 {
        Pixman::G4
    } else if raw == 16846848 {
        Pixman::A1
    } else if raw == 17104896 {
        Pixman::G1
    } else if raw == 268828672 {
        Pixman::YUY2
    } else if raw == 201785344 {
        Pixman::YV12
    } else {
        Pixman::Other(raw)
    }
}

impl From<u32> for Pixman {
    fn from(raw: u32) -> (p: Pixman) {
        from_raw(raw)
    }
}

impl vstd::std_specs::convert::FromSpecImpl<u32> for Pixman {
    open spec fn obeys_from_spec() -> bool {
        true
    }

    open spec fn from_spec(raw: u32) -> Pixman {
        match spec_named(raw) {
            Some(n) => n,
            None => Pixman::Other(raw),
        }
    }
}

} // verus!
