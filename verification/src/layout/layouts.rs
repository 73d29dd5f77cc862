use vstd::prelude::*;
use crate::units::{Size, Size2, SizeUnit, F32_ZERO_BITS, F32_MAX_BITS};
use crate::layout::util::{LayoutDir, Alignment};
use crate::layout::direction::{Direction, StretchDir, DirectionPair, X, Y, Rev, Stretch};
use std::marker::PhantomData;

verus! {

/// A dynamic dimensioned frame that by default have size equal
/// to the maximum of its children.
///
/// This layout usually should contain only one child with no offset.
#[derive(Debug, Clone, Copy)]
pub struct BoundsLayout {
    /// If set, use `Dimension` on that axis.
    pub fixed: [bool; 2],
    /// Minimum bounds.
    pub min: Size2,
    /// Maximum bounds.
    pub max: Size2,
}

pub open spec fn spec_size2_zero() -> Size2 {
    Size2 {
        x: Size { unit: SizeUnit::Pixels, value: F32_ZERO_BITS },
        y: Size { unit: SizeUnit::Pixels, value: F32_ZERO_BITS },
    }
}

pub open spec fn spec_size2_max() -> Size2 {
    Size2 {
        x: Size { unit: SizeUnit::Pixels, value: F32_MAX_BITS },
        y: Size { unit: SizeUnit::Pixels, value: F32_MAX_BITS },
    }
}

#[allow(non_snake_case)]
impl BoundsLayout {
    /// Ignore constraints and use `BoundsLayout` as padding.
    pub fn PADDING() -> (r: Self)
        ensures
            r.fixed@ == seq![false, false],
            r.min == spec_size2_zero(),
            r.max == spec_size2_max(),
    {
        Self { fixed: [false, false], min: Size2::ZERO(), max: Size2::MAX() }
    }

    /// Bounded above by `max` only: sized to its largest child, at most `max`.
    pub fn from_max(max: Size2) -> (r: Self)
        ensures
            r.fixed@ == seq![false, false],
            r.min == spec_size2_zero(),
            r.max == max,
    {
        BoundsLayout { fixed: [false, false], min: Size2::ZERO(), max }
    }

    /// Bounded below by `min`.
    pub fn from_min(min: Size2) -> (r: Self)
        ensures
            r.fixed@ == seq![false, false],
            r.min == min,
            r.max == spec_size2_max(),
    {
        BoundsLayout { fixed: [false, false], min, max: Size2::MAX() }
    }

    /// Bounded on the X axis; the Y axis uses `Dimension`.
    pub fn x_bounds(min: Size, max: Size) -> (r: Self)
        ensures
            r.fixed@ == seq![false, true],
            r.min == (Size2 { x: min, y: min }),
            r.max == (Size2 { x: max, y: max }),
    {
        BoundsLayout { fixed: [false, true], min: Size2::splat(min), max: Size2::splat(max) }
    }

    /// Bounded on the Y axis; the X axis uses `Dimension`.
    pub fn y_bounds(min: Size, max: Size) -> (r: Self)
        ensures
            r.fixed@ == seq![true, false],
            r.min == (Size2 { x: min, y: min }),
            r.max == (Size2 { x: max, y: max }),
    {
        BoundsLayout { fixed: [true, false], min: Size2::splat(min), max: Size2::splat(max) }
    }
}

impl Default for BoundsLayout {
    fn default() -> (r: Self)
        ensures
            r.fixed@ == seq![false, false],
            r.min == spec_size2_zero(),
            r.max == spec_size2_max(),
    {
        Self::PADDING()
    }
}

/// A 2D grid wih even pre-subdivided cells.
///
/// `row_dir` must be orthogonal to `column_dir`.
#[derive(Debug, Clone, Copy, PartialEq, Eq, Structural)]
pub struct SizedGridLayout {
    /// Determines the size of a cell.
    pub cell_size: Size2,
    /// The order of which continuous items are placed.
    pub row_dir: LayoutDir,
    /// The order of which rows are placed.
    pub column_dir: LayoutDir,
    /// How items in a incomplete row are aligned.
    ///
    /// Significant when an early linebreak occurs.
    pub alignment: Alignment,
    /// if specified, adjust cell size to fill the grid without changing cell count.
    pub stretch: bool,
}

/// A 2D grid with unevenly subdivided cells.
///
/// `row_dir` must be orthogonal to `column_dir`.
#[derive(Debug, Clone, Copy, PartialEq, Eq, Structural)]
pub struct DynamicTableLayout {
    /// Determines the number of columns, use a large number for infinite.
    pub columns: usize,
    /// The order of which continuous items are placed.
    pub row_dir: LayoutDir,
    /// The order of which rows are placed.
    pub column_dir: LayoutDir,
    /// If specified, adjust row margin to fill the table.
    pub stretch: bool,
}

/// A size agnostic mono-directional container.
#[derive(Debug)]
pub struct StackLayout<D>(PhantomData<D>);

#[allow(non_snake_case)]
impl StackLayout<X> {
    /// Left to right.
    pub fn HSTACK() -> StackLayout<X> {
        StackLayout(PhantomData)
    }
}

#[allow(non_snake_case)]
impl StackLayout<Rev<Y>> {
    /// Top to bottom.
    pub fn VSTACK() -> StackLayout<Rev<Y>> {
        StackLayout(PhantomData)
    }
}

impl<D: Direction> StackLayout<D> {
    pub fn new() -> Self {
        StackLayout(PhantomData)
    }
}

/// A fix-sized mono-directional container.
#[derive(Debug)]
pub struct SpanLayout<D>(PhantomData<D>);

#[allow(non_snake_case)]
impl SpanLayout<X> {
    /// Left to right.
    pub fn HBOX() -> SpanLayout<X> {
        SpanLayout(PhantomData)
    }
}

#[allow(non_snake_case)]
impl SpanLayout<Rev<Y>> {
    /// Top to bottom.
    pub fn VBOX() -> SpanLayout<Rev<Y>> {
        SpanLayout(PhantomData)
    }
}

impl<D: StretchDir> SpanLayout<D> {
    pub fn new() -> Self {
        SpanLayout(PhantomData)
    }

    /// The same span, stretched to fill its parent.
    pub fn with_stretch(self) -> SpanLayout<Stretch<D>> {
        SpanLayout(PhantomData)
    }
}

/// A statically sized mono-directional HBox or VBox, wrapped into lines.
///
/// Children are ordered by their main axis alignment,
/// then by their index in the Children component.
#[derive(Debug)]
pub struct ParagraphLayout<D1, D2>(PhantomData<(D1, D2)>);

#[allow(non_snake_case)]
impl ParagraphLayout<X, Rev<Y>> {
    /// Left to right, lines top to bottom.
    pub fn PARAGRAPH() -> ParagraphLayout<X, Rev<Y>> {
        ParagraphLayout(PhantomData)
    }
}

impl<D1: StretchDir, D2: Direction> ParagraphLayout<D1, D2> where (D1, D2): DirectionPair {
    pub fn new() -> Self {
        ParagraphLayout(PhantomData)
    }

    /// The same paragraph, each line stretched to fill its parent.
    pub fn with_stretch(self) -> ParagraphLayout<Stretch<D1>, D2> where (Stretch<D1>, D2): DirectionPair {
        ParagraphLayout(PhantomData)
    }
}

} // verus!
