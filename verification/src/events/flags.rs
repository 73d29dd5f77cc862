use vstd::prelude::*;
use vstd::std_specs::ops::BitOrSpecImpl;

verus! {

/// Flags for cursor events.
///
/// Valid listeners are `Hover`, `*Click`, `*Drag`, `DoubleClick`, `Drop` and `ClickOutside`.
///
/// * `Hover` listens for `Hover`,
/// * `Click` listens for `Down`, `Up` and `Pressed`
/// * `Drag` listens for `Down`, `DragEnd` and `Drag`
/// * `DoubleClick` listens for `DoubleClick`, which replaces `Click` or `DragEnd`
/// * `Drop` listens for `Drop`
/// * `ClickOutside` listens for mouse up outside
///
/// Each named flag is one bit, in the order they are declared, starting from bit 0.
#[derive(Debug, Clone, Copy, PartialEq, Eq, Hash, Structural)]
pub struct EventFlags(pub u32);

pub const IDLE_BIT: u32 = 1;
pub const HOVER_BIT: u32 = 2;
pub const LEFT_DRAG_BIT: u32 = 4;
pub const LEFT_DOWN_BIT: u32 = 8;
pub const LEFT_PRESSED_BIT: u32 = 16;
pub const LEFT_CLICK_BIT: u32 = 32;
pub const DOUBLE_CLICK_BIT: u32 = 64;
pub const MID_DOWN_BIT: u32 = 128;
pub const MID_PRESSED_BIT: u32 = 256;
pub const MID_CLICK_BIT: u32 = 512;
pub const MID_DRAG_BIT: u32 = 1024;
pub const RIGHT_DOWN_BIT: u32 = 2048;
pub const RIGHT_PRESSED_BIT: u32 = 4096;
pub const RIGHT_CLICK_BIT: u32 = 8192;
pub const RIGHT_DRAG_BIT: u32 = 16384;
pub const DROP_BIT: u32 = 32768;
pub const DRAG_END_BIT: u32 = 65536;
pub const CLICK_OUTSIDE_BIT: u32 = 131072;
pub const MOUSE_WHEEL_BIT: u32 = 262144;
/// Every named flag.
pub const ALL_BITS: u32 = 524287;
/// `Hover`, `LeftClick`, `MidClick`, `RightClick`, `Drop` and `MouseWheel`.
pub const BLOCK_ALL_BITS: u32 = 303650;



#[allow(non_snake_case)]
impl EventFlags {
    pub fn Idle() -> (r: Self)
        ensures
            r.0 == IDLE_BIT,
    {
        Self(IDLE_BIT)
    }

    pub fn Hover() -> (r: Self)
        ensures
            r.0 == HOVER_BIT,
    {
        Self(HOVER_BIT)
    }

    pub fn LeftDrag() -> (r: Self)
        ensures
            r.0 == LEFT_DRAG_BIT,
    {
        Self(LEFT_DRAG_BIT)
    }

    pub fn LeftDown() -> (r: Self)
        ensures
            r.0 == LEFT_DOWN_BIT,
    {
        Self(LEFT_DOWN_BIT)
    }

    pub fn LeftPressed() -> (r: Self)
        ensures
            r.0 == LEFT_PRESSED_BIT,
    {
        Self(LEFT_PRESSED_BIT)
    }

    pub fn LeftClick() -> (r: Self)
        ensures
            r.0 == LEFT_CLICK_BIT,
    {
        Self(LEFT_CLICK_BIT)
    }

    pub fn DoubleClick() -> (r: Self)
        ensures
            r.0 == DOUBLE_CLICK_BIT,
    {
        Self(DOUBLE_CLICK_BIT)
    }

    pub fn MidDown() -> (r: Self)
        ensures
            r.0 == MID_DOWN_BIT,
    {
        Self(MID_DOWN_BIT)
    }

    pub fn MidPressed() -> (r: Self)
        ensures
            r.0 == MID_PRESSED_BIT,
    {
        Self(MID_PRESSED_BIT)
    }

    pub fn MidClick() -> (r: Self)
        ensures
            r.0 == MID_CLICK_BIT,
    {
        Self(MID_CLICK_BIT)
    }

    pub fn MidDrag() -> (r: Self)
        ensures
            r.0 == MID_DRAG_BIT,
    {
        Self(MID_DRAG_BIT)
    }

    pub fn RightDown() -> (r: Self)
        ensures
            r.0 == RIGHT_DOWN_BIT,
    {
        Self(RIGHT_DOWN_BIT)
    }

    pub fn RightPressed() -> (r: Self)
        ensures
            r.0 == RIGHT_PRESSED_BIT,
    {
        Self(RIGHT_PRESSED_BIT)
    }

    pub fn RightClick() -> (r: Self)
        ensures
            r.0 == RIGHT_CLICK_BIT,
    {
        Self(RIGHT_CLICK_BIT)
    }

    pub fn RightDrag() -> (r: Self)
        ensures
            r.0 == RIGHT_DRAG_BIT,
    {
        Self(RIGHT_DRAG_BIT)
    }

    pub fn Drop() -> (r: Self)
        ensures
            r.0 == DROP_BIT,
    {
        Self(DROP_BIT)
    }

    pub fn DragEnd() -> (r: Self)
        ensures
            r.0 == DRAG_END_BIT,
    {
        Self(DRAG_END_BIT)
    }

    pub fn ClickOutside() -> (r: Self)
        ensures
            r.0 == CLICK_OUTSIDE_BIT,
    {
        Self(CLICK_OUTSIDE_BIT)
    }

    pub fn MouseWheel() -> (r: Self)
        ensures
            r.0 == MOUSE_WHEEL_BIT,
    {
        Self(MOUSE_WHEEL_BIT)
    }

    /// Every named flag.
    pub fn All() -> (r: Self)
        ensures
            r.0 == ALL_BITS,
    {
        Self(ALL_BITS)
    }

    /// Blocks all event listeners underneath:
    /// `Hover`, `LeftClick`, `MidClick`, `RightClick`, `Drop` and `MouseWheel`.
    pub fn BlockAll() -> (r: Self)
        ensures
            r.0 == BLOCK_ALL_BITS,
    {
        Self(BLOCK_ALL_BITS)
    }

    /// The raw bits.
    pub open spec fn bits(self) -> u32 {
        self.0
    }

    /// Every bit of `other` is set in `self`.
    pub open spec fn spec_contains(self, other: EventFlags) -> bool {
        self.0 & other.0 == other.0
    }

    /// `self` and `other` share a bit.
    pub open spec fn spec_intersects(self, other: EventFlags) -> bool {
        self.0 & other.0 != 0
    }

    /// The bits set in either.
    pub open spec fn spec_or(self, other: EventFlags) -> EventFlags {
        EventFlags(self.0 | other.0)
    }

    pub fn const_or(self, other: EventFlags) -> (r: Self)
        ensures
            r == self.spec_or(other),
    {
        Self(self.0 | other.0)
    }

    pub fn is_empty(&self) -> (r: bool)
        ensures
            r == (self.0 == 0),
    {
        self.0 == 0
    }

    pub fn contains(&self, other: EventFlags) -> (r: bool)
        ensures
            r == self.spec_contains(other),
    {
        self.0 & other.0 == other.0
    }

    pub fn equals(&self, other: EventFlags) -> (r: bool)
        ensures
            r == (*self == other),
    {
        self.0 == other.0
    }

    pub fn intersects(&self, other: EventFlags) -> (r: bool)
        ensures
            r == self.spec_intersects(other),
    {
        self.0 & other.0 > 0
    }

    /// Every named flag.
    pub fn all() -> (r: Self)
        ensures
            r.0 == ALL_BITS,
    {
        Self(ALL_BITS)
    }
}

impl Default for EventFlags {
    fn default() -> (r: Self)
        ensures
            r.0 == 0,
    {
        EventFlags(0)
    }
}

impl core::ops::BitOr for EventFlags {
    type Output = EventFlags;

    fn bitor(self, rhs: EventFlags) -> (r: EventFlags) {
        EventFlags(self.0 | rhs.0)
    }
}

impl BitOrSpecImpl for EventFlags {
    open spec fn obeys_bitor_spec() -> bool {
        true
    }

    open spec fn bitor_req(self, rhs: EventFlags) -> bool {
        true
    }

    open spec fn bitor_spec(self, rhs: EventFlags) -> EventFlags {
        self.spec_or(rhs)
    }
}

/// `All` is the union of the named flags, and `BlockAll` is the union of
/// `Hover`, `LeftClick`, `MidClick`, `RightClick`, `Drop` and `MouseWheel`.
pub proof fn lemma_flag_constants()
    ensures
        ALL_BITS == (1u32 | 2 | 4 | 8 | 16 | 32 | 64 | 128 | 256 | 512 | 1024 | 2048 | 4096
            | 8192 | 16384 | 32768 | 65536 | 131072 | 262144),
        BLOCK_ALL_BITS == (HOVER_BIT | LEFT_CLICK_BIT | MID_CLICK_BIT | RIGHT_CLICK_BIT
            | DROP_BIT | MOUSE_WHEEL_BIT),
{
    assert((1u32 | 2 | 4 | 8 | 16 | 32 | 64 | 128 | 256 | 512 | 1024 | 2048 | 4096
            | 8192 | 16384 | 32768 | 65536 | 131072 | 262144) == 524287u32) by (bit_vector);
    assert((2u32 | 32 | 512 | 8192 | 32768 | 262144) == 303650u32) by (bit_vector);
}

/// Containment is reflexive and transitive, a union contains both sides,
/// and containing a non-empty set implies intersecting it.
pub proof fn lemma_flag_set_laws(a: EventFlags, b: EventFlags, c: EventFlags)
    ensures
        a.spec_contains(a),
        a.spec_contains(b) && b.spec_contains(c) ==> a.spec_contains(c),
        a.spec_or(b).spec_contains(a) && a.spec_or(b).spec_contains(b),
        a.spec_contains(b) && b.0 != 0 ==> a.spec_intersects(b),
        a.spec_intersects(b) == b.spec_intersects(a),
        a.spec_or(b) == b.spec_or(a),
        a.spec_contains(c) && b.spec_contains(c) ==> a.spec_or(b).spec_contains(c),
        c.spec_contains(a) && c.spec_contains(b) ==> c.spec_contains(a.spec_or(b)),
        a.spec_or(b).spec_intersects(c) == (a.spec_intersects(c) || b.spec_intersects(c)),
{
    let (x, y, z) = (a.0, b.0, c.0);
    assert(x & x == x) by (bit_vector);
    assert((x & y == y && y & z == z) ==> x & z == z) by (bit_vector);
    assert((x | y) & x == x && (x | y) & y == y) by (bit_vector);
    assert((x & y == y && y != 0) ==> x & y != 0) by (bit_vector);
    assert((x & y != 0) == (y & x != 0)) by (bit_vector);
    assert(x | y == y | x) by (bit_vector);
    assert((x & z == z && y & z == z) ==> (x | y) & z == z) by (bit_vector);
    assert((z & x == x && z & y == y) ==> z & (x | y) == (x | y)) by (bit_vector);
    assert(((x | y) & z != 0) == (x & z != 0 || y & z != 0)) by (bit_vector);
}

/// Represents a persistent cursor interaction state like hovering, clicking or dragging.
///
/// There should be `0` to `1` entity with `CursorFocus` per frame.
#[derive(Debug, Clone, Copy, PartialEq, Eq, Structural)]
pub struct CursorFocus(pub EventFlags);

impl CursorFocus {
    pub fn flags(&self) -> (r: EventFlags)
        ensures
            r == self.0,
    {
        self.0
    }

    pub fn is(&self, flag: EventFlags) -> (r: bool)
        ensures
            r == (self.0 == flag),
    {
        self.0.equals(flag)
    }

    pub fn intersects(&self, flag: EventFlags) -> (r: bool)
        ensures
            r == self.0.spec_intersects(flag),
    {
        self.0.intersects(flag)
    }
}

/// Represents a single frame cursor event like `LeftClick`.
///
/// There should be `0` to `1` entity with `CursorAction` per frame.
#[derive(Debug, Clone, Copy, PartialEq, Eq, Structural)]
pub struct CursorAction(pub EventFlags);

impl CursorAction {
    pub fn flags(&self) -> (r: EventFlags)
        ensures
            r == self.0,
    {
        self.0
    }

    pub fn is(&self, flag: EventFlags) -> (r: bool)
        ensures
            r == (self.0 == flag),
    {
        self.0.equals(flag)
    }

    pub fn intersects(&self, flag: EventFlags) -> (r: bool)
        ensures
            r == self.0.spec_intersects(flag),
    {
        self.0.intersects(flag)
    }
}

/// Represents cursor clicking outside the sprite's hitbox.
#[derive(Debug, Clone, Copy, PartialEq, Eq)]
pub struct CursorClickOutside;

/// Set if some descendant has focus.
#[derive(Debug, Clone, Copy, PartialEq, Eq)]
pub struct DescendantHasFocus;

} // verus!
