use vstd::prelude::*;
use crate::layout::util::{Alignment, LayoutDir};
use crate::flex::util::{SpriteAnchor, spec_anchor_point};

verus! {

/// Unified constants for various enums.
///
/// Note `Left` can be used as `CenterLeft`, etc.
#[derive(Debug, Clone, Copy, PartialEq, Eq, Structural)]
pub enum AouiSpacialConsts {
    TopLeft,
    TopCenter,
    TopRight,
    CenterLeft,
    Center,
    CenterRight,
    BottomLeft,
    BottomCenter,
    BottomRight,
    Top,
    Bottom,
    Left,
    Right,
    LeftToRight,
    RightToLeft,
    TopToBottom,
    BottomToTop,
}

/// The constant names an anchor: every constant but the four directions.
pub open spec fn spec_is_anchor(c: AouiSpacialConsts) -> bool {
    !(c == AouiSpacialConsts::LeftToRight || c == AouiSpacialConsts::RightToLeft
        || c == AouiSpacialConsts::TopToBottom || c == AouiSpacialConsts::BottomToTop)
}

/// The constant names an alignment: `Center`, `Top`, `Bottom`, `Left` or `Right`.
pub open spec fn spec_is_alignment(c: AouiSpacialConsts) -> bool {
    c == AouiSpacialConsts::Center || c == AouiSpacialConsts::Top || c == AouiSpacialConsts::Bottom
        || c == AouiSpacialConsts::Left || c == AouiSpacialConsts::Right
}

/// The constant names a layout direction.
pub open spec fn spec_is_direction(c: AouiSpacialConsts) -> bool {
    c == AouiSpacialConsts::LeftToRight || c == AouiSpacialConsts::RightToLeft
        || c == AouiSpacialConsts::TopToBottom || c == AouiSpacialConsts::BottomToTop
}

pub open spec fn spec_const_anchor(c: AouiSpacialConsts) -> SpriteAnchor {
    match c {
        AouiSpacialConsts::TopLeft => SpriteAnchor::TopLeft,
        AouiSpacialConsts::TopCenter | AouiSpacialConsts::Top => SpriteAnchor::TopCenter,
        AouiSpacialConsts::TopRight => SpriteAnchor::TopRight,
        AouiSpacialConsts::CenterLeft | AouiSpacialConsts::Left => SpriteAnchor::CenterLeft,
        AouiSpacialConsts::CenterRight | AouiSpacialConsts::Right => SpriteAnchor::CenterRight,
        AouiSpacialConsts::BottomLeft => SpriteAnchor::BottomLeft,
        AouiSpacialConsts::BottomCenter | AouiSpacialConsts::Bottom => SpriteAnchor::BottomCenter,
        AouiSpacialConsts::BottomRight => SpriteAnchor::BottomRight,
        _ => SpriteAnchor::Center,
    }
}

pub open spec fn spec_const_alignment(c: AouiSpacialConsts) -> Alignment {
    match c {
        AouiSpacialConsts::Top => Alignment::Top,
        AouiSpacialConsts::Bottom => Alignment::Bottom,
        AouiSpacialConsts::Left => Alignment::Left,
        AouiSpacialConsts::Right => Alignment::Right,
        _ => Alignment::Center,
    }
}

pub open spec fn spec_const_direction(c: AouiSpacialConsts) -> LayoutDir {
    match c {
        AouiSpacialConsts::RightToLeft => LayoutDir::RightToLeft,
        AouiSpacialConsts::TopToBottom => LayoutDir::TopToBottom,
        AouiSpacialConsts::BottomToTop => LayoutDir::BottomToTop,
        _ => LayoutDir::LeftToRight,
    }
}

impl AouiSpacialConsts {
    /// The anchor this constant names; `Top` is `TopCenter`, `Left` is
    /// `CenterLeft` and so on. Directions are not anchors.
    pub fn to_anchor(self) -> (r: SpriteAnchor)
        requires
            spec_is_anchor(self),
        ensures
            r == spec_const_anchor(self),
    {
        match self {
            AouiSpacialConsts::TopLeft => SpriteAnchor::TopLeft,
            AouiSpacialConsts::TopCenter => SpriteAnchor::TopCenter,
            AouiSpacialConsts::TopRight => SpriteAnchor::TopRight,
            AouiSpacialConsts::CenterLeft => SpriteAnchor::CenterLeft,
            AouiSpacialConsts::Center => SpriteAnchor::Center,
            AouiSpacialConsts::CenterRight => SpriteAnchor::CenterRight,
            AouiSpacialConsts::BottomLeft => SpriteAnchor::BottomLeft,
            AouiSpacialConsts::BottomCenter => SpriteAnchor::BottomCenter,
            AouiSpacialConsts::BottomRight => SpriteAnchor::BottomRight,
            AouiSpacialConsts::Top => SpriteAnchor::TopCenter,
            AouiSpacialConsts::Bottom => SpriteAnchor::BottomCenter,
            AouiSpacialConsts::Left => SpriteAnchor::CenterLeft,
            _ => SpriteAnchor::CenterRight,
        }
    }

    /// The alignment this constant names.
    pub fn to_alignment(self) -> (r: Alignment)
        requires
            spec_is_alignment(self),
        ensures
            r == spec_const_alignment(self),
    {
        match self {
            AouiSpacialConsts::Center => Alignment::Center,
            AouiSpacialConsts::Top => Alignment::Top,
            AouiSpacialConsts::Bottom => Alignment::Bottom,
            AouiSpacialConsts::Left => Alignment::Left,
            _ => Alignment::Right,
        }
    }

    /// The layout direction this constant names.
    pub fn to_layout_dir(self) -> (r: LayoutDir)
        requires
            spec_is_direction(self),
        ensures
            r == spec_const_direction(self),
    {
        match self {
            AouiSpacialConsts::LeftToRight => LayoutDir::LeftToRight,
            AouiSpacialConsts::RightToLeft => LayoutDir::RightToLeft,
            AouiSpacialConsts::TopToBottom => LayoutDir::TopToBottom,
            _ => LayoutDir::BottomToTop,
        }
    }
}

/// Every anchor, alignment and direction has a constant naming it, and the
/// side names (`Top`, `Left`, ...) name the same anchor as their centered
/// full names.
pub proof fn lemma_spacial_consts_cover(a: SpriteAnchor, al: Alignment, d: LayoutDir)
    ensures
        exists|c: AouiSpacialConsts| spec_is_anchor(c) && spec_const_anchor(c) == a,
        exists|c: AouiSpacialConsts| spec_is_alignment(c) && spec_const_alignment(c) == al,
        exists|c: AouiSpacialConsts| spec_is_direction(c) && spec_const_direction(c) == d,
        spec_const_anchor(AouiSpacialConsts::Top) == spec_const_anchor(AouiSpacialConsts::TopCenter),
        spec_const_anchor(AouiSpacialConsts::Left) == spec_const_anchor(AouiSpacialConsts::CenterLeft),
{
    let ca = match a {
        SpriteAnchor::Center => AouiSpacialConsts::Center,
        SpriteAnchor::BottomLeft => AouiSpacialConsts::BottomLeft,
        SpriteAnchor::BottomCenter => AouiSpacialConsts::BottomCenter,
        SpriteAnchor::BottomRight => AouiSpacialConsts::BottomRight,
        SpriteAnchor::CenterLeft => AouiSpacialConsts::CenterLeft,
        SpriteAnchor::CenterRight => AouiSpacialConsts::CenterRight,
        SpriteAnchor::TopLeft => AouiSpacialConsts::TopLeft,
        SpriteAnchor::TopCenter => AouiSpacialConsts::TopCenter,
        SpriteAnchor::TopRight => AouiSpacialConsts::TopRight,
    };
    assert(spec_is_anchor(ca) && spec_const_anchor(ca) == a);
    let cl = match al {
        Alignment::Center => AouiSpacialConsts::Center,
        Alignment::Bottom => AouiSpacialConsts::Bottom,
        Alignment::Top => AouiSpacialConsts::Top,
        Alignment::Left => AouiSpacialConsts::Left,
        Alignment::Right => AouiSpacialConsts::Right,
    };
    assert(spec_is_alignment(cl) && spec_const_alignment(cl) == al);
    let cd = match d {
        LayoutDir::LeftToRight => AouiSpacialConsts::LeftToRight,
        LayoutDir::RightToLeft => AouiSpacialConsts::RightToLeft,
        LayoutDir::BottomToTop => AouiSpacialConsts::BottomToTop,
        LayoutDir::TopToBottom => AouiSpacialConsts::TopToBottom,
    };
    assert(spec_is_direction(cd) && spec_const_direction(cd) == d);
}

/// The point an alignment puts items at, in the units of `spec_anchor_point`:
/// the middle of the side it names, or the center.
pub open spec fn spec_alignment_point(al: Alignment) -> (int, int) {
    match al {
        Alignment::Center => (0, 0),
        Alignment::Bottom => (0, -1),
        Alignment::Top => (0, 1),
        Alignment::Left => (-1, 0),
        Alignment::Right => (1, 0),
    }
}

/// An alignment constant names the alignment toward the anchor of the same
/// name: `Top` aligns to the top, where the anchor `Top` lies, and so on.
pub proof fn lemma_alignment_matches_anchor(c: AouiSpacialConsts)
    requires
        spec_is_alignment(c),
    ensures
        spec_alignment_point(spec_const_alignment(c)) == spec_anchor_point(spec_const_anchor(c)),
{
}

/// Accepts 1 or 2 numbers for a `Vec2` or a `Size2`.
#[derive(Debug, Default, Clone, Copy, PartialEq, Eq)]
pub struct OneOrTwo<T>(pub T);

/// A text widget that a formatted string can be written to.
pub trait WidgetWrite {
    fn write(&mut self, s: String);
}

} // verus!
