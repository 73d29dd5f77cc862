//! The dimension of a sprite: where its size comes from.
use vstd::prelude::*;
use crate::units::{Size2, FontSize, Vec2Bits, Size, SizeUnit, F32_ONE_BITS};

verus! {

/// Size of the sprite.
///
/// If `Copied` and paired with a component that has a dimension like a sprite,
/// this will be copied every frame,
/// useful when paired with a dynamic sized item like text or atlas.
///
/// If `Owned` we will try to edit the dimension of the paired sprite
#[derive(Debug, Clone, Copy, PartialEq, Eq, Structural)]
pub enum DimensionType {
    /// Copy `size` from sprite, rect, image, text, etc.
    Copied,
    /// Generated from `Layout` and kept as reference for the next frame.
    Dynamic,
    /// Governs size of sprite, rect, image, text, etc.
    Owned(Size2),
}

impl Default for DimensionType {
    fn default() -> (r: Self)
        ensures
            r == DimensionType::Copied,
    {
        DimensionType::Copied
    }
}

/// Controls the dimension of the sprite.
#[derive(Debug, Clone, Copy, PartialEq, Eq, Structural)]
pub struct Dimension {
    /// Input for dimension.
    pub dimension: DimensionType,
    /// Modifies font size `em`.
    pub font_size: FontSize,
    /// If set, always preserves the aspect ratio of the input sprite.
    ///
    /// This will resize the dimension and affect children laid out against
    /// this sprite.
    pub preserve_aspect: bool,
}

/// Runtime evaluated data of a widget's dimension (bit patterns of `f32` values).
#[derive(Debug, Clone, Copy, PartialEq, Eq, Structural)]
pub struct DimensionData {
    /// Evaluated size in pixels.
    pub size: Vec2Bits,
    /// Aspect ratio of the sprite.
    pub aspect: u32,
    /// Font size `em` on this sprite.
    pub em: u32,
}

impl Default for Dimension {
    fn default() -> (r: Self)
        ensures
            r == (Dimension { dimension: DimensionType::Copied, font_size: FontSize::Unchanged, preserve_aspect: false }),
    {
        Self { dimension: DimensionType::Copied, font_size: FontSize::Unchanged, preserve_aspect: false }
    }
}

#[allow(non_snake_case)]
impl Dimension {
    /// Dimension copied paired components.
    pub fn COPIED() -> (r: Self)
        ensures
            r == (Dimension { dimension: DimensionType::Copied, font_size: FontSize::Unchanged, preserve_aspect: false }),
    {
        Self { dimension: DimensionType::Copied, font_size: FontSize::Unchanged, preserve_aspect: false }
    }

    /// Dimension inherited from parent.
    pub fn INHERIT() -> (r: Self)
        ensures
            r == (Dimension {
                dimension: DimensionType::Owned(Size2 {
                    x: Size { unit: SizeUnit::Percent, value: F32_ONE_BITS },
                    y: Size { unit: SizeUnit::Percent, value: F32_ONE_BITS },
                }),
                font_size: FontSize::Unchanged,
                preserve_aspect: false,
            }),
    {
        Self { dimension: DimensionType::Owned(Size2::FULL()), font_size: FontSize::Unchanged, preserve_aspect: false }
    }

    /// Owned dimension in pixels.
    pub fn pixels(size: Vec2Bits) -> (r: Self)
        ensures
            r == (Dimension {
                dimension: DimensionType::Owned(Size2 {
                    x: Size { unit: SizeUnit::Pixels, value: size.x },
                    y: Size { unit: SizeUnit::Pixels, value: size.y },
                }),
                font_size: FontSize::Unchanged,
                preserve_aspect: false,
            }),
    {
        Self {
            dimension: DimensionType::Owned(Size2::pixels(size.x, size.y)),
            font_size: FontSize::Unchanged,
            preserve_aspect: false,
        }
    }

    /// Owned dimension in percentage.
    pub fn percentage(size: Vec2Bits) -> (r: Self)
        ensures
            r == (Dimension {
                dimension: DimensionType::Owned(Size2 {
                    x: Size { unit: SizeUnit::Percent, value: size.x },
                    y: Size { unit: SizeUnit::Percent, value: size.y },
                }),
                font_size: FontSize::Unchanged,
                preserve_aspect: false,
            }),
    {
        Self {
            dimension: DimensionType::Owned(Size2::percent(size.x, size.y)),
            font_size: FontSize::Unchanged,
            preserve_aspect: false,
        }
    }

    /// Owned dimension.
    pub fn owned(size: Size2) -> (r: Self)
        ensures
            r == (Dimension { dimension: DimensionType::Owned(size), font_size: FontSize::Unchanged, preserve_aspect: false }),
    {
        Self { dimension: DimensionType::Owned(size), font_size: FontSize::Unchanged, preserve_aspect: false }
    }

    /// Add a em modifier; this also drops `preserve_aspect`.
    pub fn with_em(self, em: FontSize) -> (r: Self)
        ensures
            r == (Dimension { dimension: self.dimension, font_size: em, preserve_aspect: false }),
    {
        Self { dimension: self.dimension, font_size: em, preserve_aspect: false }
    }

    /// Add preserve aspect.
    pub fn with_preserve_aspect(self, preserve: bool) -> (r: Self)
        ensures
            r == (Dimension { preserve_aspect: preserve, ..self }),
    {
        Self { dimension: self.dimension, font_size: self.font_size, preserve_aspect: preserve }
    }

    pub fn is_owned(&self) -> (r: bool)
        ensures
            r == (self.dimension is Owned),
    {
        matches!(self.dimension, DimensionType::Owned(..))
    }

    pub fn is_copied(&self) -> (r: bool)
        ensures
            r == (self.dimension is Copied),
    {
        matches!(self.dimension, DimensionType::Copied)
    }
}

/// A sprite's [`Dimension`] together with its [`DimensionData`].
pub struct DimensionMutReadOnlyItem<'a> {
    pub source: &'a Dimension,
    pub dynamic: &'a DimensionData,
}

/// A sprite's [`Dimension`] together with its [`DimensionData`], as seen by the
/// systems that update them.
pub struct DimensionMutItem<'a> {
    pub source: &'a Dimension,
    pub dynamic: &'a DimensionData,
}

impl<'a> DimensionMutReadOnlyItem<'a> {
    pub fn size(&self) -> (r: Vec2Bits)
        ensures
            r == self.dynamic.size,
    {
        self.dynamic.size
    }

    pub fn is_owned(&self) -> (r: bool)
        ensures
            r == (self.source.dimension is Owned),
    {
        self.source.is_owned()
    }

    pub fn is_copied(&self) -> (r: bool)
        ensures
            r == (self.source.dimension is Copied),
    {
        self.source.is_copied()
    }
}

impl<'a> DimensionMutItem<'a> {
    pub fn size(&self) -> (r: Vec2Bits)
        ensures
            r == self.dynamic.size,
    {
        self.dynamic.size
    }

    pub fn is_owned(&self) -> (r: bool)
        ensures
            r == (self.source.dimension is Owned),
    {
        self.source.is_owned()
    }

    pub fn is_copied(&self) -> (r: bool)
        ensures
            r == (self.source.dimension is Copied),
    {
        self.source.is_copied()
    }
}

/// Builds a `GlobalTransform` for a 2D mesh,
/// this always uses the center anchor and converts dimension to scale.
#[derive(Debug, Clone, Copy, Default)]
pub struct BuildMeshTransform;

} // verus!
