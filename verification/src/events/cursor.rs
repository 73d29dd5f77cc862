use vstd::prelude::*;
pub use crate::units::Vec2Bits;
use crate::units::{Size2, Size, SizeUnit, F32_ZERO_BITS};
use crate::events::flags::{
    EventFlags, LEFT_DRAG_BIT, LEFT_CLICK_BIT, LEFT_DOWN_BIT, LEFT_PRESSED_BIT, DOUBLE_CLICK_BIT,
    MID_DOWN_BIT, MID_PRESSED_BIT, MID_CLICK_BIT, MID_DRAG_BIT, RIGHT_DOWN_BIT, RIGHT_PRESSED_BIT,
    RIGHT_CLICK_BIT, RIGHT_DRAG_BIT, DROP_BIT, DRAG_END_BIT, CLICK_OUTSIDE_BIT, HOVER_BIT,
};

verus! {

/// A mouse button.
#[derive(Debug, Clone, Copy, PartialEq, Eq, Structural)]
pub enum MouseButton {
    Left,
    Right,
    Middle,
    Other(u16),
}

/// The buttons that are held, that went down this frame and that went up this frame.
pub struct MouseInput {
    pub pressed: Vec<MouseButton>,
    pub just_pressed: Vec<MouseButton>,
    pub just_released: Vec<MouseButton>,
}

fn buttons_contain(buttons: &Vec<MouseButton>, button: MouseButton) -> (r: bool)
    ensures
        r == buttons@.contains(button),
{
    let mut i: usize = 0;
    while i < buttons.len()
        invariant
            i <= buttons@.len(),
            forall|j: int| 0 <= j < i ==> buttons@[j] != button,
        decreases buttons@.len() - i,
    {
        if buttons[i] == button {
            return true;
        }
        i = i + 1;
    }
    false
}

impl MouseInput {
    pub fn pressed(&self, button: MouseButton) -> (r: bool)
        ensures
            r == self.pressed@.contains(button),
    {
        buttons_contain(&self.pressed, button)
    }

    pub fn just_pressed(&self, button: MouseButton) -> (r: bool)
        ensures
            r == self.just_pressed@.contains(button),
    {
        buttons_contain(&self.just_pressed, button)
    }

    pub fn just_released(&self, button: MouseButton) -> (r: bool)
        ensures
            r == self.just_released@.contains(button),
    {
        buttons_contain(&self.just_released, button)
    }
}

/// State of the cursor system.
///
/// Times and positions are the bit patterns of `f32` values; `0` is `0.0`.
#[derive(Debug)]
pub struct CursorState {
    pub last_lmb_down_time: (u32, u32),
    pub cursor_pos: Vec2Bits,
    pub up_pos: Vec2Bits,
    pub down_pos: Vec2Bits,
    pub blocked: bool,
    pub catched: bool,
    pub dragging: bool,
    pub drag_button: MouseButton,
    pub drag_target: Option<u64>,
    pub drag_dbl_click: bool,
}

impl Default for CursorState {
    fn default() -> (r: Self)
        ensures
            r == (CursorState {
                last_lmb_down_time: (0, 0),
                cursor_pos: Vec2Bits { x: 0, y: 0 },
                up_pos: Vec2Bits { x: 0, y: 0 },
                down_pos: Vec2Bits { x: 0, y: 0 },
                blocked: false,
                catched: false,
                dragging: false,
                drag_button: MouseButton::Left,
                drag_target: None,
                drag_dbl_click: false,
            }),
    {
        CursorState {
            last_lmb_down_time: (0, 0),
            cursor_pos: Vec2Bits { x: 0, y: 0 },
            up_pos: Vec2Bits { x: 0, y: 0 },
            down_pos: Vec2Bits { x: 0, y: 0 },
            blocked: false,
            dragging: false,
            drag_button: MouseButton::Left,
            drag_target: None,
            catched: false,
            drag_dbl_click: false,
        }
    }
}

impl CursorState {
    /// Check if mouse event is catched this frame.
    pub fn catched(&self) -> (r: bool)
        ensures
            r == self.catched,
    {
        self.catched
    }

    /// Call if some external system catched mouse events this frame before this.
    ///
    /// Does not cancel dragging.
    pub fn block(&mut self)
        ensures
            old(self).dragging ==> *final(self) == *old(self),
            !old(self).dragging ==> *final(self) == (CursorState {
                last_lmb_down_time: (0, 0),
                blocked: true,
                ..*old(self)
            }),
    {
        if !self.dragging {
            self.last_lmb_down_time = (0, 0);
            self.blocked = true;
        }
    }

    /// Call if some external system catched mouse events this frame before this.
    pub fn block_force(&mut self)
        ensures
            *final(self) == (CursorState {
                last_lmb_down_time: (0, 0),
                blocked: true,
                drag_target: None,
                dragging: false,
                ..*old(self)
            }),
    {
        self.last_lmb_down_time = (0, 0);
        self.blocked = true;
        self.drag_target = None;
        self.dragging = false;
    }

    /// Cancels dragging of the current entity, does not reset mouse state.
    pub fn cancel_drag(&mut self)
        ensures
            *final(self) == (CursorState { drag_target: None, ..*old(self) }),
    {
        self.drag_target = None;
    }

    /// Forgets the last left button presses, so that the next click is no double click.
    pub fn clear_dbl_click(&mut self)
        ensures
            *final(self) == (CursorState { last_lmb_down_time: (0, 0), ..*old(self) }),
    {
        self.last_lmb_down_time = (0, 0);
    }

    /// The entity being dragged, if any; whether it still exists is for the caller to check.
    pub fn drag_target(&self) -> (r: Option<u64>)
        ensures
            r == self.drag_target,
    {
        self.drag_target
    }

    pub fn down_position(&self) -> (r: Vec2Bits)
        ensures
            r == self.down_pos,
    {
        self.down_pos
    }

    pub fn up_position(&self) -> (r: Vec2Bits)
        ensures
            r == self.up_pos,
    {
        self.up_pos
    }

    pub fn cursor_position(&self) -> (r: Vec2Bits)
        ensures
            r == self.cursor_pos,
    {
        self.cursor_pos
    }

    pub fn dragging(&self) -> (r: bool)
        ensures
            r == self.dragging,
    {
        self.dragging
    }

    pub fn drag_button(&self) -> (r: MouseButton)
        ensures
            r == self.drag_button,
    {
        self.drag_button
    }
}

/// Make entity track cursor's movement, at an offset.
#[derive(Debug, Clone, Copy, PartialEq, Eq, Structural)]
pub struct TrackCursor(pub Size2);

#[allow(non_snake_case)]
impl TrackCursor {
    /// Track the cursor with no offset.
    pub fn DEFAULT() -> (r: Self)
        ensures
            r.0 == (Size2 {
                x: Size { unit: SizeUnit::Pixels, value: F32_ZERO_BITS },
                y: Size { unit: SizeUnit::Pixels, value: F32_ZERO_BITS },
            }),
    {
        TrackCursor(Size2::ZERO())
    }

    pub fn offset(offset: Size2) -> (r: Self)
        ensures
            r.0 == offset,
    {
        TrackCursor(offset)
    }
}

} // verus!
