//! Sizes with units. Numeric values are held as the bit patterns of `f32`
//! values (`0` is `0.0`); the arithmetic on them is done where floats are.
use vstd::prelude::*;

verus! {

/// The bit pattern of `0.0f32`.
pub const F32_ZERO_BITS: u32 = 0;
/// The bit pattern of `1.0f32`.
pub const F32_ONE_BITS: u32 = 0x3f80_0000;
/// The bit pattern of `f32::MAX`.
pub const F32_MAX_BITS: u32 = 0x7f7f_ffff;

/// A 2D vector whose coordinates are the bit patterns of `f32` values.
#[derive(Debug, Clone, Copy, PartialEq, Eq, Structural)]
pub struct Vec2Bits {
    pub x: u32,
    pub y: u32,
}

/// The unit of a size.
#[derive(Debug, Clone, Copy, PartialEq, Eq, Structural)]
pub enum SizeUnit {
    Pixels,
    Em,
    Rem,
    Percent,
    MarginPx,
    MarginEm,
    MarginRem,
    Infer,
}

/// A value with a unit.
#[derive(Debug, Clone, Copy, PartialEq, Eq, Structural)]
pub struct Size {
    pub unit: SizeUnit,
    pub value: u32,
}

impl Size {
    pub fn new(unit: SizeUnit, value: u32) -> (r: Self)
        ensures
            r == (Size { unit, value }),
    {
        Size { unit, value }
    }
}

/// A 2D size with a unit on each axis.
#[derive(Debug, Clone, Copy, PartialEq, Eq, Structural)]
pub struct Size2 {
    pub x: Size,
    pub y: Size,
}

#[allow(non_snake_case)]
impl Size2 {
    /// Zero pixels on both axes.
    pub fn ZERO() -> (r: Self)
        ensures
            r == (Size2 {
                x: Size { unit: SizeUnit::Pixels, value: F32_ZERO_BITS },
                y: Size { unit: SizeUnit::Pixels, value: F32_ZERO_BITS },
            }),
    {
        Size2 {
            x: Size { unit: SizeUnit::Pixels, value: F32_ZERO_BITS },
            y: Size { unit: SizeUnit::Pixels, value: F32_ZERO_BITS },
        }
    }

    /// The whole parent on both axes.
    pub fn FULL() -> (r: Self)
        ensures
            r == (Size2 {
                x: Size { unit: SizeUnit::Percent, value: F32_ONE_BITS },
                y: Size { unit: SizeUnit::Percent, value: F32_ONE_BITS },
            }),
    {
        Size2 {
            x: Size { unit: SizeUnit::Percent, value: F32_ONE_BITS },
            y: Size { unit: SizeUnit::Percent, value: F32_ONE_BITS },
        }
    }

    /// The largest number of pixels on both axes.
    pub fn MAX() -> (r: Self)
        ensures
            r == (Size2 {
                x: Size { unit: SizeUnit::Pixels, value: F32_MAX_BITS },
                y: Size { unit: SizeUnit::Pixels, value: F32_MAX_BITS },
            }),
    {
        Size2 {
            x: Size { unit: SizeUnit::Pixels, value: F32_MAX_BITS },
            y: Size { unit: SizeUnit::Pixels, value: F32_MAX_BITS },
        }
    }

    pub fn new(x: Size, y: Size) -> (r: Self)
        ensures
            r == (Size2 { x, y }),
    {
        Size2 { x, y }
    }

    /// The same size on both axes.
    pub fn splat(size: Size) -> (r: Self)
        ensures
            r == (Size2 { x: size, y: size }),
    {
        Size2 { x: size, y: size }
    }

    pub fn pixels(x: u32, y: u32) -> (r: Self)
        ensures
            r == (Size2 {
                x: Size { unit: SizeUnit::Pixels, value: x },
                y: Size { unit: SizeUnit::Pixels, value: y },
            }),
    {
        Size2 { x: Size { unit: SizeUnit::Pixels, value: x }, y: Size { unit: SizeUnit::Pixels, value: y } }
    }

    /// Fractions of the parent (`1.0` is the whole parent).
    pub fn percent(x: u32, y: u32) -> (r: Self)
        ensures
            r == (Size2 {
                x: Size { unit: SizeUnit::Percent, value: x },
                y: Size { unit: SizeUnit::Percent, value: y },
            }),
    {
        Size2 { x: Size { unit: SizeUnit::Percent, value: x }, y: Size { unit: SizeUnit::Percent, value: y } }
    }

    /// The units of the two axes.
    pub fn units(&self) -> (r: (SizeUnit, SizeUnit))
        ensures
            r == (self.x.unit, self.y.unit),
    {
        (self.x.unit, self.y.unit)
    }
}

/// Modifies the font size `em`.
#[derive(Debug, Clone, Copy, PartialEq, Eq, Structural)]
pub enum FontSize {
    /// Keep the parent's `em`.
    Unchanged,
    Pixels(u32),
    Ems(u32),
    Rems(u32),
}

impl FontSize {
    /// The font size given by a size in pixels, ems or rems; other units are
    /// not font sizes.
    pub fn from_size(value: Size) -> (r: Self)
        requires
            value.unit == SizeUnit::Pixels || value.unit == SizeUnit::Em || value.unit == SizeUnit::Rem,
        ensures
            r == match value.unit {
                SizeUnit::Pixels => FontSize::Pixels(value.value),
                SizeUnit::Em => FontSize::Ems(value.value),
                _ => FontSize::Rems(value.value),
            },
    {
        match value.unit {
            SizeUnit::Pixels => FontSize::Pixels(value.value),
            SizeUnit::Em => FontSize::Ems(value.value),
            _ => FontSize::Rems(value.value),
        }
    }
}

} // verus!
