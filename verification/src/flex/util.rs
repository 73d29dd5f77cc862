use vstd::prelude::*;
use vstd::std_specs::convert::FromSpecImpl;

verus! {

/// Horizontal or Vertical.
#[derive(Debug, Clone, Copy, PartialEq, Eq, Structural)]
pub enum Axis {
    Horizontal,
    Vertical,
}

/// The other axis.
pub open spec fn spec_axis_rev(a: Axis) -> Axis {
    match a {
        Axis::Horizontal => Axis::Vertical,
        Axis::Vertical => Axis::Horizontal,
    }
}

impl Axis {
    pub fn rev(&self) -> (r: Axis)
        ensures
            r == spec_axis_rev(*self),
    {
        match self {
            Axis::Horizontal => Axis::Vertical,
            Axis::Vertical => Axis::Horizontal,
        }
    }
}

impl From<bool> for Axis {
    fn from(value: bool) -> (r: Self) {
        match value {
            false => Axis::Horizontal,
            true => Axis::Vertical,
        }
    }
}

impl FromSpecImpl<bool> for Axis {
    open spec fn obeys_from_spec() -> bool {
        true
    }

    open spec fn from_spec(v: bool) -> Axis {
        if v { Axis::Vertical } else { Axis::Horizontal }
    }
}

pub const L2R: u8 = 0;
pub const R2L: u8 = 1;
pub const B2T: u8 = 2;
pub const T2B: u8 = 3;

pub const LO: u8 = 0;
pub const HI: u8 = 1;

/// Order items are laid out in a flex container.
#[derive(Debug, Clone, Copy, PartialEq, Eq, Structural)]
pub enum FlexDir {
    LeftToRight,
    RightToLeft,
    BottomToTop,
    TopToBottom,
}

pub open spec fn spec_flex_axis(d: FlexDir) -> Axis {
    match d {
        FlexDir::LeftToRight | FlexDir::RightToLeft => Axis::Horizontal,
        FlexDir::BottomToTop | FlexDir::TopToBottom => Axis::Vertical,
    }
}

pub open spec fn spec_flex_reversed(d: FlexDir) -> bool {
    d == FlexDir::RightToLeft || d == FlexDir::TopToBottom
}

pub open spec fn spec_flex_flip(d: FlexDir) -> FlexDir {
    match d {
        FlexDir::LeftToRight => FlexDir::RightToLeft,
        FlexDir::RightToLeft => FlexDir::LeftToRight,
        FlexDir::BottomToTop => FlexDir::TopToBottom,
        FlexDir::TopToBottom => FlexDir::BottomToTop,
    }
}

pub open spec fn spec_flex_transpose(d: FlexDir) -> FlexDir {
    match d {
        FlexDir::LeftToRight => FlexDir::BottomToTop,
        FlexDir::RightToLeft => FlexDir::TopToBottom,
        FlexDir::BottomToTop => FlexDir::LeftToRight,
        FlexDir::TopToBottom => FlexDir::RightToLeft,
    }
}

/// The direction numbered `value`: `L2R`, `R2L`, `B2T`, `T2B`.
pub open spec fn spec_flex_dir_of(value: u8) -> FlexDir {
    if value == L2R {
        FlexDir::LeftToRight
    } else if value == R2L {
        FlexDir::RightToLeft
    } else if value == B2T {
        FlexDir::BottomToTop
    } else {
        FlexDir::TopToBottom
    }
}

impl FlexDir {
    pub fn is_reversed(&self) -> (r: bool)
        ensures
            r == spec_flex_reversed(*self),
    {
        matches!(self, Self::RightToLeft | Self::TopToBottom)
    }

    pub fn flip(&self) -> (r: Self)
        ensures
            r == spec_flex_flip(*self),
    {
        match self {
            FlexDir::LeftToRight => FlexDir::RightToLeft,
            FlexDir::RightToLeft => FlexDir::LeftToRight,
            FlexDir::BottomToTop => FlexDir::TopToBottom,
            FlexDir::TopToBottom => FlexDir::BottomToTop,
        }
    }

    pub fn transpose(&self) -> (r: Self)
        ensures
            r == spec_flex_transpose(*self),
    {
        match self {
            FlexDir::LeftToRight => FlexDir::BottomToTop,
            FlexDir::RightToLeft => FlexDir::TopToBottom,
            FlexDir::BottomToTop => FlexDir::LeftToRight,
            FlexDir::TopToBottom => FlexDir::RightToLeft,
        }
    }

    /// The direction numbered `value`; numbers above `T2B` are not directions.
    pub fn from_u8(value: u8) -> (r: Self)
        requires
            value <= T2B,
        ensures
            r == spec_flex_dir_of(value),
    {
        match value {
            0 => Self::LeftToRight,
            1 => Self::RightToLeft,
            2 => Self::BottomToTop,
            _ => Self::TopToBottom,
        }
    }
}

impl From<FlexDir> for Axis {
    fn from(value: FlexDir) -> (r: Self) {
        match value {
            FlexDir::LeftToRight => Axis::Horizontal,
            FlexDir::RightToLeft => Axis::Horizontal,
            FlexDir::BottomToTop => Axis::Vertical,
            FlexDir::TopToBottom => Axis::Vertical,
        }
    }
}

impl FromSpecImpl<FlexDir> for Axis {
    open spec fn obeys_from_spec() -> bool {
        true
    }

    open spec fn from_spec(v: FlexDir) -> Axis {
        spec_flex_axis(v)
    }
}

/// Flip and transpose are commuting involutions; flip keeps the axis and toggles
/// reversal, transpose changes the axis and keeps reversal; the numbering
/// `L2R`..`T2B` names each direction once.
pub proof fn lemma_flex_dir_laws(d: FlexDir, n: u8, m: u8)
    ensures
        spec_flex_flip(spec_flex_flip(d)) == d,
        spec_flex_transpose(spec_flex_transpose(d)) == d,
        spec_flex_flip(spec_flex_transpose(d)) == spec_flex_transpose(spec_flex_flip(d)),
        spec_flex_axis(spec_flex_flip(d)) == spec_flex_axis(d),
        spec_flex_reversed(spec_flex_flip(d)) != spec_flex_reversed(d),
        spec_flex_axis(spec_flex_transpose(d)) == spec_axis_rev(spec_flex_axis(d)),
        spec_flex_reversed(spec_flex_transpose(d)) == spec_flex_reversed(d),
        spec_axis_rev(spec_axis_rev(spec_flex_axis(d))) == spec_flex_axis(d),
        n <= T2B && m <= T2B && spec_flex_dir_of(n) == spec_flex_dir_of(m) ==> n == m,
        exists|k: u8| k <= T2B && spec_flex_dir_of(k) == d,
{
    let k: u8 = match d {
        FlexDir::LeftToRight => 0,
        FlexDir::RightToLeft => 1,
        FlexDir::BottomToTop => 2,
        FlexDir::TopToBottom => 3,
    };
    assert(spec_flex_dir_of(k) == d);
}

/// Where items are aligned to in a flex container.
#[derive(Debug, Clone, Copy, PartialEq, Eq, Structural)]
pub enum Alignment {
    Center,
    Bottom,
    Top,
    Left,
    Right,
}

pub open spec fn spec_flex_alignment_transpose(a: Alignment) -> Alignment {
    match a {
        Alignment::Center => Alignment::Center,
        Alignment::Bottom => Alignment::Top,
        Alignment::Top => Alignment::Bottom,
        Alignment::Left => Alignment::Right,
        Alignment::Right => Alignment::Left,
    }
}

impl Alignment {
    pub fn transpose(&self) -> (r: Self)
        ensures
            r == spec_flex_alignment_transpose(*self),
    {
        match self {
            Alignment::Center => Alignment::Center,
            Alignment::Bottom => Alignment::Top,
            Alignment::Top => Alignment::Bottom,
            Alignment::Left => Alignment::Right,
            Alignment::Right => Alignment::Left,
        }
    }
}

/// Transposing an alignment twice gives it back, and only the center is its own
/// transpose.
pub proof fn lemma_flex_alignment_transpose(a: Alignment)
    ensures
        spec_flex_alignment_transpose(spec_flex_alignment_transpose(a)) == a,
        (spec_flex_alignment_transpose(a) == a) == (a == Alignment::Center),
{
}

/// Where to place the next line in a wrapping layout.
#[derive(Debug, Clone, Copy, PartialEq, Eq, Structural)]
pub enum Stacking {
    Lo,
    Hi,
}

impl Stacking {
    /// The stacking numbered `value`: `LO` or `HI`; other numbers are not stackings.
    pub fn from_u8(value: u8) -> (r: Self)
        requires
            value <= HI,
        ensures
            r == if value == LO { Stacking::Lo } else { Stacking::Hi },
    {
        match value {
            0 => Self::Lo,
            _ => Self::Hi,
        }
    }
}

/// Reversed directions stack towards the low end.
pub open spec fn spec_flex_stacking(d: FlexDir) -> Stacking {
    if spec_flex_reversed(d) { Stacking::Lo } else { Stacking::Hi }
}

impl From<FlexDir> for Stacking {
    fn from(value: FlexDir) -> (r: Self) {
        match value {
            FlexDir::RightToLeft | FlexDir::TopToBottom => Self::Lo,
            FlexDir::LeftToRight | FlexDir::BottomToTop => Self::Hi,
        }
    }
}

impl FromSpecImpl<FlexDir> for Stacking {
    open spec fn obeys_from_spec() -> bool {
        true
    }

    open spec fn from_spec(v: FlexDir) -> Stacking {
        spec_flex_stacking(v)
    }
}

/// Which third of a span an item goes to.
#[derive(Debug, Clone, Copy, PartialEq, Eq, Structural)]
pub enum SpanAlign {
    Neg,
    Mid,
    Pos,
}

pub open spec fn spec_span_align_of(a: Alignment) -> SpanAlign {
    match a {
        Alignment::Center => SpanAlign::Mid,
        Alignment::Left | Alignment::Bottom => SpanAlign::Neg,
        Alignment::Right | Alignment::Top => SpanAlign::Pos,
    }
}

impl From<Alignment> for SpanAlign {
    fn from(value: Alignment) -> (r: Self) {
        match value {
            Alignment::Center => Self::Mid,
            Alignment::Left | Alignment::Bottom => Self::Neg,
            Alignment::Right | Alignment::Top => Self::Pos,
        }
    }
}

impl FromSpecImpl<Alignment> for SpanAlign {
    open spec fn obeys_from_spec() -> bool {
        true
    }

    open spec fn from_spec(v: Alignment) -> SpanAlign {
        spec_span_align_of(v)
    }
}

/// The nine named anchors of a sprite.
#[derive(Debug, Clone, Copy, PartialEq, Eq, Structural)]
pub enum SpriteAnchor {
    Center,
    BottomLeft,
    BottomCenter,
    BottomRight,
    CenterLeft,
    CenterRight,
    TopLeft,
    TopCenter,
    TopRight,
}

/// The third of the axis an anchor lies in.
pub open spec fn spec_span_align(axis: Axis, anchor: SpriteAnchor) -> SpanAlign {
    match axis {
        Axis::Horizontal => match anchor {
            SpriteAnchor::BottomLeft | SpriteAnchor::CenterLeft | SpriteAnchor::TopLeft => SpanAlign::Neg,
            SpriteAnchor::BottomCenter | SpriteAnchor::Center | SpriteAnchor::TopCenter => SpanAlign::Mid,
            SpriteAnchor::BottomRight | SpriteAnchor::CenterRight | SpriteAnchor::TopRight => SpanAlign::Pos,
        },
        Axis::Vertical => match anchor {
            SpriteAnchor::BottomLeft | SpriteAnchor::BottomCenter | SpriteAnchor::BottomRight => SpanAlign::Neg,
            SpriteAnchor::CenterLeft | SpriteAnchor::Center | SpriteAnchor::CenterRight => SpanAlign::Mid,
            SpriteAnchor::TopLeft | SpriteAnchor::TopCenter | SpriteAnchor::TopRight => SpanAlign::Pos,
        },
    }
}

impl Axis {
    pub fn span_align(&self, anchor: &SpriteAnchor) -> (r: SpanAlign)
        ensures
            r == spec_span_align(*self, *anchor),
    {
        match self {
            Axis::Horizontal => match anchor {
                SpriteAnchor::BottomLeft | SpriteAnchor::CenterLeft | SpriteAnchor::TopLeft => SpanAlign::Neg,
                SpriteAnchor::BottomCenter | SpriteAnchor::Center | SpriteAnchor::TopCenter => SpanAlign::Mid,
                SpriteAnchor::BottomRight | SpriteAnchor::CenterRight | SpriteAnchor::TopRight => SpanAlign::Pos,
            },
            Axis::Vertical => match anchor {
                SpriteAnchor::BottomLeft | SpriteAnchor::BottomCenter | SpriteAnchor::BottomRight => SpanAlign::Neg,
                SpriteAnchor::CenterLeft | SpriteAnchor::Center | SpriteAnchor::CenterRight => SpanAlign::Mid,
                SpriteAnchor::TopLeft | SpriteAnchor::TopCenter | SpriteAnchor::TopRight => SpanAlign::Pos,
            },
        }
    }
}

/// Where an anchor lies on its sprite, in half sizes from the center: `x` runs
/// from `-1` at the left edge to `1` at the right edge, `y` from `-1` at the
/// bottom to `1` at the top.
pub open spec fn spec_anchor_point(a: SpriteAnchor) -> (int, int) {
    match a {
        SpriteAnchor::Center => (0, 0),
        SpriteAnchor::BottomLeft => (-1, -1),
        SpriteAnchor::BottomCenter => (0, -1),
        SpriteAnchor::BottomRight => (1, -1),
        SpriteAnchor::CenterLeft => (-1, 0),
        SpriteAnchor::CenterRight => (1, 0),
        SpriteAnchor::TopLeft => (-1, 1),
        SpriteAnchor::TopCenter => (0, 1),
        SpriteAnchor::TopRight => (1, 1),
    }
}

/// The side of a coordinate: below, at or above the center.
pub open spec fn spec_side_of(v: int) -> SpanAlign {
    if v < 0 {
        SpanAlign::Neg
    } else if v == 0 {
        SpanAlign::Mid
    } else {
        SpanAlign::Pos
    }
}

/// An item goes to the third of a span its anchor lies in: along the
/// horizontal axis that third follows the anchor's `x` alone (every left anchor
/// is `Neg`, every centered one `Mid`, every right one `Pos`), along the
/// vertical axis its `y` alone.
pub proof fn lemma_span_align_follows_anchor(a: SpriteAnchor)
    ensures
        spec_span_align(Axis::Horizontal, a) == spec_side_of(spec_anchor_point(a).0),
        spec_span_align(Axis::Vertical, a) == spec_side_of(spec_anchor_point(a).1),
{
}

/// An anchor is determined by its thirds on the two axes.
pub proof fn lemma_span_align_determines_anchor(a: SpriteAnchor, b: SpriteAnchor)
    ensures
        spec_span_align(Axis::Horizontal, a) == spec_span_align(Axis::Horizontal, b)
            && spec_span_align(Axis::Vertical, a) == spec_span_align(Axis::Vertical, b) ==> a == b,
{
}

/// Cause special behaviors when inserted into a flex container.
#[derive(Debug, Clone, Copy, PartialEq, Eq, Structural)]
#[non_exhaustive]
pub enum FlexControl {
    /// Does not cause special behaviors, optional.
    Normal,
    /// Breaks the line in a flex box after rendering this item.
    Linebreak,
    /// Breaks the line without taking up space
    /// using returned position for rendering is unspecified behavior.
    LinebreakMarker,
}

impl Default for FlexControl {
    fn default() -> (r: Self)
        ensures
            r == FlexControl::Normal,
    {
        FlexControl::Normal
    }
}

impl FlexControl {
    pub fn is_linebreak(&self) -> (r: bool)
        ensures
            r == (*self != FlexControl::Normal),
    {
        matches!(self, FlexControl::Linebreak | FlexControl::LinebreakMarker)
    }
}

} // verus!
