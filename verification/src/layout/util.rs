use vstd::prelude::*;
use vstd::std_specs::convert::FromSpecImpl;

verus! {

/// Horizontal or Vertical.
#[derive(Debug, Clone, Copy, PartialEq, Eq, Structural)]
pub enum Axis {
    Horizontal,
    Vertical,
}

impl Default for Axis {
    fn default() -> (r: Self)
        ensures
            r == Axis::Horizontal,
    {
        Axis::Horizontal
    }
}

/// The axis named by a boolean: `false` is horizontal, `true` is vertical.
pub open spec fn spec_axis_of_bool(value: bool) -> Axis {
    if value { Axis::Vertical } else { Axis::Horizontal }
}

impl From<bool> for Axis {
    fn from(value: bool) -> (r: Self) {
        match value {
            false => Axis::Horizontal,
            true => Axis::Vertical,
        }
    }
}

impl FromSpecImpl<bool> for Axis {
    open spec fn obeys_from_spec() -> bool {
        true
    }

    open spec fn from_spec(v: bool) -> Axis {
        spec_axis_of_bool(v)
    }
}

} // verus!

verus! {

/// Order items are laid out in a container.
#[derive(Debug, Clone, Copy, PartialEq, Eq, Structural)]
pub enum LayoutDir {
    LeftToRight,
    RightToLeft,
    BottomToTop,
    TopToBottom,
}

/// The axis a layout direction runs along.
pub open spec fn spec_dir_axis(d: LayoutDir) -> Axis {
    match d {
        LayoutDir::LeftToRight | LayoutDir::RightToLeft => Axis::Horizontal,
        LayoutDir::BottomToTop | LayoutDir::TopToBottom => Axis::Vertical,
    }
}

/// Whether a direction runs against its axis (right to left, top to bottom).
pub open spec fn spec_dir_reversed(d: LayoutDir) -> bool {
    d == LayoutDir::RightToLeft || d == LayoutDir::TopToBottom
}

/// The same axis, the other way round.
pub open spec fn spec_dir_flip(d: LayoutDir) -> LayoutDir {
    match d {
        LayoutDir::LeftToRight => LayoutDir::RightToLeft,
        LayoutDir::RightToLeft => LayoutDir::LeftToRight,
        LayoutDir::BottomToTop => LayoutDir::TopToBottom,
        LayoutDir::TopToBottom => LayoutDir::BottomToTop,
    }
}

/// The other axis, keeping whether the direction is reversed.
pub open spec fn spec_dir_transpose(d: LayoutDir) -> LayoutDir {
    match d {
        LayoutDir::LeftToRight => LayoutDir::BottomToTop,
        LayoutDir::RightToLeft => LayoutDir::TopToBottom,
        LayoutDir::BottomToTop => LayoutDir::LeftToRight,
        LayoutDir::TopToBottom => LayoutDir::RightToLeft,
    }
}

impl LayoutDir {
    pub fn is_reversed(&self) -> (r: bool)
        ensures
            r == spec_dir_reversed(*self),
    {
        matches!(self, Self::RightToLeft | Self::TopToBottom)
    }

    pub fn flip(&self) -> (r: Self)
        ensures
            r == spec_dir_flip(*self),
    {
        match self {
            LayoutDir::LeftToRight => LayoutDir::RightToLeft,
            LayoutDir::RightToLeft => LayoutDir::LeftToRight,
            LayoutDir::BottomToTop => LayoutDir::TopToBottom,
            LayoutDir::TopToBottom => LayoutDir::BottomToTop,
        }
    }

    pub fn transpose(&self) -> (r: Self)
        ensures
            r == spec_dir_transpose(*self),
    {
        match self {
            LayoutDir::LeftToRight => LayoutDir::BottomToTop,
            LayoutDir::RightToLeft => LayoutDir::TopToBottom,
            LayoutDir::BottomToTop => LayoutDir::LeftToRight,
            LayoutDir::TopToBottom => LayoutDir::RightToLeft,
        }
    }
}

/// Whether two directions run along different axes, as a grid's rows and
/// columns must.
pub fn orthogonal(a: LayoutDir, b: LayoutDir) -> (r: bool)
    ensures
        r == (spec_dir_axis(a) != spec_dir_axis(b)),
{
    let ha = matches!(a, LayoutDir::LeftToRight | LayoutDir::RightToLeft);
    let hb = matches!(b, LayoutDir::LeftToRight | LayoutDir::RightToLeft);
    ha != hb
}

impl From<LayoutDir> for Axis {
    fn from(value: LayoutDir) -> (r: Self) {
        match value {
            LayoutDir::LeftToRight => Axis::Horizontal,
            LayoutDir::RightToLeft => Axis::Horizontal,
            LayoutDir::BottomToTop => Axis::Vertical,
            LayoutDir::TopToBottom => Axis::Vertical,
        }
    }
}

impl FromSpecImpl<LayoutDir> for Axis {
    open spec fn obeys_from_spec() -> bool {
        true
    }

    open spec fn from_spec(v: LayoutDir) -> Axis {
        spec_dir_axis(v)
    }
}

/// Flipping a direction twice gives it back, transposing it twice gives it back,
/// and the two commute.
pub proof fn lemma_dir_flip_transpose_involutions(d: LayoutDir)
    ensures
        spec_dir_flip(spec_dir_flip(d)) == d,
        spec_dir_transpose(spec_dir_transpose(d)) == d,
        spec_dir_flip(spec_dir_transpose(d)) == spec_dir_transpose(spec_dir_flip(d)),
{
}

/// Flipping keeps the axis and toggles reversal;
/// transposing changes the axis and keeps reversal.
pub proof fn lemma_dir_flip_transpose_axes(d: LayoutDir)
    ensures
        spec_dir_axis(spec_dir_flip(d)) == spec_dir_axis(d),
        spec_dir_reversed(spec_dir_flip(d)) == !spec_dir_reversed(d),
        spec_dir_axis(spec_dir_transpose(d)) != spec_dir_axis(d),
        spec_dir_reversed(spec_dir_transpose(d)) == spec_dir_reversed(d),
{
}

/// Where items are aligned to in a container.
#[derive(Debug, Clone, Copy, PartialEq, Eq, Structural)]
pub enum Alignment {
    Center,
    Bottom,
    Top,
    Left,
    Right,
}

/// The opposite side; the center stays.
pub open spec fn spec_alignment_transpose(a: Alignment) -> Alignment {
    match a {
        Alignment::Center => Alignment::Center,
        Alignment::Bottom => Alignment::Top,
        Alignment::Top => Alignment::Bottom,
        Alignment::Left => Alignment::Right,
        Alignment::Right => Alignment::Left,
    }
}

impl Alignment {
    pub fn transpose(&self) -> (r: Self)
        ensures
            r == spec_alignment_transpose(*self),
    {
        match self {
            Alignment::Center => Alignment::Center,
            Alignment::Bottom => Alignment::Top,
            Alignment::Top => Alignment::Bottom,
            Alignment::Left => Alignment::Right,
            Alignment::Right => Alignment::Left,
        }
    }
}

/// Transposing an alignment twice gives it back, and it keeps the side class
/// only for the center.
pub proof fn lemma_alignment_transpose_involution(a: Alignment)
    ensures
        spec_alignment_transpose(spec_alignment_transpose(a)) == a,
        (spec_alignment_trinary(spec_alignment_transpose(a)) == spec_alignment_trinary(a))
            == (a == Alignment::Center),
{
}

/// Low or high end of an axis.
#[derive(Debug, Clone, Copy, PartialEq, Eq, Structural)]
pub enum Binary {
    Lo,
    Hi,
}

/// The end of the axis a direction starts from seen from its end:
/// reversed directions are `Lo`, the others `Hi`.
pub open spec fn spec_dir_binary(d: LayoutDir) -> Binary {
    if spec_dir_reversed(d) { Binary::Lo } else { Binary::Hi }
}

impl From<LayoutDir> for Binary {
    fn from(value: LayoutDir) -> (r: Self) {
        match value {
            LayoutDir::RightToLeft | LayoutDir::TopToBottom => Self::Lo,
            LayoutDir::LeftToRight | LayoutDir::BottomToTop => Self::Hi,
        }
    }
}

impl FromSpecImpl<LayoutDir> for Binary {
    open spec fn obeys_from_spec() -> bool {
        true
    }

    open spec fn from_spec(v: LayoutDir) -> Binary {
        spec_dir_binary(v)
    }
}

/// Negative side, middle or positive side of an axis.
#[derive(Debug, Clone, Copy, PartialEq, Eq, PartialOrd, Ord, Structural)]
pub enum Trinary {
    Neg,
    Mid,
    Pos,
}

/// Side of an alignment: left and bottom are negative, right and top positive.
pub open spec fn spec_alignment_trinary(a: Alignment) -> Trinary {
    match a {
        Alignment::Center => Trinary::Mid,
        Alignment::Left | Alignment::Bottom => Trinary::Neg,
        Alignment::Right | Alignment::Top => Trinary::Pos,
    }
}

impl From<Alignment> for Trinary {
    fn from(value: Alignment) -> (r: Self) {
        match value {
            Alignment::Center => Self::Mid,
            Alignment::Left | Alignment::Bottom => Self::Neg,
            Alignment::Right | Alignment::Top => Self::Pos,
        }
    }
}

impl FromSpecImpl<Alignment> for Trinary {
    open spec fn obeys_from_spec() -> bool {
        true
    }

    open spec fn from_spec(v: Alignment) -> Trinary {
        spec_alignment_trinary(v)
    }
}

/// The opposite side; the middle stays.
pub open spec fn spec_trinary_flip(t: Trinary) -> Trinary {
    match t {
        Trinary::Neg => Trinary::Pos,
        Trinary::Mid => Trinary::Mid,
        Trinary::Pos => Trinary::Neg,
    }
}

/// Where the items of an incomplete row of a grid go, in halves of the row's
/// free space: `0` keeps them at the start of the row, `1` centers them, `2`
/// puts them at its end.
pub open spec fn spec_row_alignment(row_dir: LayoutDir, alignment: Alignment) -> u8 {
    match (spec_dir_binary(row_dir), spec_alignment_trinary(alignment)) {
        (Binary::Lo, Trinary::Neg) => 2,
        (Binary::Lo, Trinary::Mid) => 1,
        (Binary::Lo, Trinary::Pos) => 0,
        (Binary::Hi, Trinary::Neg) => 0,
        (Binary::Hi, Trinary::Mid) => 1,
        (Binary::Hi, Trinary::Pos) => 2,
    }
}

/// Where the items of an incomplete row of a grid go, see [`spec_row_alignment`].
pub fn row_alignment(row_dir: LayoutDir, alignment: Alignment) -> (r: u8)
    ensures
        r == spec_row_alignment(row_dir, alignment),
{
    match (Binary::from(row_dir), Trinary::from(alignment)) {
        (Binary::Lo, Trinary::Neg) => 2,
        (Binary::Lo, Trinary::Mid) => 1,
        (Binary::Lo, Trinary::Pos) => 0,
        (Binary::Hi, Trinary::Neg) => 0,
        (Binary::Hi, Trinary::Mid) => 1,
        (Binary::Hi, Trinary::Pos) => 2,
    }
}

/// An incomplete row is aligned to the side its alignment names, whichever way
/// the row runs: reversing the row, or swapping the alignment for the opposite
/// one, moves its items to the other end; a centered row stays centered.
pub proof fn lemma_row_alignment_mirrors(row_dir: LayoutDir, alignment: Alignment)
    ensures
        spec_row_alignment(spec_dir_flip(row_dir), alignment) == 2 - spec_row_alignment(row_dir, alignment),
        spec_row_alignment(row_dir, spec_alignment_transpose(alignment)) == 2 - spec_row_alignment(row_dir, alignment),
        alignment == Alignment::Center ==> spec_row_alignment(row_dir, alignment) == 1,
        spec_row_alignment(spec_dir_transpose(row_dir), alignment) == spec_row_alignment(row_dir, alignment),
{
}

} // verus!
