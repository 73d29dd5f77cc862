use vstd::prelude::*;
use crate::events::flags::{
    EventFlags, LEFT_DRAG_BIT, LEFT_CLICK_BIT, LEFT_DOWN_BIT, LEFT_PRESSED_BIT, DOUBLE_CLICK_BIT,
    MID_DOWN_BIT, MID_PRESSED_BIT, MID_CLICK_BIT, MID_DRAG_BIT, RIGHT_DOWN_BIT, RIGHT_PRESSED_BIT,
    RIGHT_CLICK_BIT, RIGHT_DRAG_BIT, DROP_BIT, DRAG_END_BIT, CLICK_OUTSIDE_BIT, HOVER_BIT, MOUSE_WHEEL_BIT,
};
use crate::events::cursor::{MouseButton, MouseInput, Vec2Bits, CursorState};

verus! {

/// The depth key of an `f32` bit pattern: bit patterns compare by this key as
/// `f32::total_cmp` compares the floats they encode (negative values below
/// `-0.0`, below `+0.0`, below positive values, with NaNs at both ends).
pub open spec fn spec_z_key(bits: u32) -> int {
    if bits < 0x8000_0000 {
        bits as int
    } else {
        0x7FFF_FFFF - bits as int
    }
}

/// The depth key of an `f32` bit pattern, see [`spec_z_key`].
pub fn z_key(bits: u32) -> (r: i64)
    ensures
        r == spec_z_key(bits),
{
    if bits < 0x8000_0000 {
        bits as i64
    } else {
        0x7FFF_FFFFi64 - bits as i64
    }
}

/// Distinct bit patterns have distinct keys, so the depth order is total.
pub proof fn lemma_z_key_injective(a: u32, b: u32)
    ensures
        spec_z_key(a) == spec_z_key(b) ==> a == b,
        a < 0x8000_0000 && b >= 0x8000_0000 ==> spec_z_key(b) < spec_z_key(a),
{
}

/// What the event pipeline knows about one listening entity this frame.
///
/// `active`: visible, not disabled and not transparent.
/// `contains_cursor` / `contains_down`: the hitbox (and clipping) contains the
/// cursor position / the position where the last button went down.
/// `z`: the bit pattern of the entity's depth.
#[derive(Debug, Clone, Copy)]
pub struct CursorCandidate {
    pub entity: u64,
    pub flags: EventFlags,
    pub active: bool,
    pub contains_cursor: bool,
    pub contains_down: bool,
    pub z: u32,
}

/// A component inserted on an entity.
#[derive(Debug, Clone, Copy, PartialEq, Eq, Structural)]
pub enum CursorEffect {
    /// `CursorAction` with these flags.
    Action(u64, EventFlags),
    /// `CursorFocus` with these flags.
    Focus(u64, EventFlags),
    /// `CursorClickOutside`.
    ClickOutside(u64),
}

/// The world as seen by the cursor system this frame.
///
/// `mouse_pos` is `None` when no camera, window or cursor position is found.
/// `now` is the bit pattern of the elapsed time in seconds.
/// `double_click_in_time`: the time since the second to last left button press
/// is within the double click threshold.
/// `drag_target_exists`: the drag target, if any, is still alive.
pub struct CursorFrame {
    pub mouse_pos: Option<Vec2Bits>,
    pub now: u32,
    pub double_click_in_time: bool,
    pub drag_target_exists: bool,
    pub buttons: MouseInput,
}

/// A candidate listens to one of `filter`'s events, is active and is under the
/// cursor, and, if `need_down`, also under the position of the last button down.
pub open spec fn spec_eligible(c: CursorCandidate, filter: EventFlags, need_down: bool) -> bool {
    &&& c.active
    &&& c.flags.spec_intersects(filter)
    &&& c.contains_cursor
    &&& need_down ==> c.contains_down
}

/// Candidate `i` is eligible and frontmost: no eligible candidate is deeper-keyed
/// above it, and no later eligible candidate ties with it.
pub open spec fn spec_is_top(
    cands: Seq<CursorCandidate>,
    filter: EventFlags,
    need_down: bool,
    i: int,
) -> bool {
    &&& 0 <= i < cands.len()
    &&& spec_eligible(cands[i], filter, need_down)
    &&& forall|j: int|
        0 <= j < cands.len() && spec_eligible(#[trigger] cands[j], filter, need_down)
            ==> spec_z_key(cands[j].z) <= spec_z_key(cands[i].z)
    &&& forall|j: int|
        i < j < cands.len() && spec_eligible(#[trigger] cands[j], filter, need_down)
            ==> spec_z_key(cands[j].z) < spec_z_key(cands[i].z)
}

/// The frontmost eligible candidate, if any (the last of equally deep ones).
pub open spec fn spec_top(cands: Seq<CursorCandidate>, filter: EventFlags, need_down: bool) -> Option<int> {
    if exists|i: int| spec_is_top(cands, filter, need_down, i) {
        Some(choose|i: int| spec_is_top(cands, filter, need_down, i))
    } else {
        None
    }
}

/// At most one candidate is frontmost.
pub proof fn lemma_top_unique(cands: Seq<CursorCandidate>, filter: EventFlags, need_down: bool, i: int, k: int)
    requires
        spec_is_top(cands, filter, need_down, i),
        spec_is_top(cands, filter, need_down, k),
    ensures
        i == k,
{
    if i < k {
        assert(spec_eligible(cands[k], filter, need_down));
    } else if k < i {
        assert(spec_eligible(cands[i], filter, need_down));
    }
}

proof fn lemma_top_is(cands: Seq<CursorCandidate>, filter: EventFlags, need_down: bool, i: int)
    requires
        spec_is_top(cands, filter, need_down, i),
    ensures
        spec_top(cands, filter, need_down) == Some(i),
{
    let k = choose|k: int| spec_is_top(cands, filter, need_down, k);
    lemma_top_unique(cands, filter, need_down, i, k);
}

/// Finds the frontmost eligible candidate (as `max_by` with `total_cmp` on depth
/// does: the last one among equally deep ones).
pub fn top_candidate(cands: &Vec<CursorCandidate>, filter: EventFlags, need_down: bool) -> (r: Option<usize>)
    ensures
        r matches Some(i) ==> spec_top(cands@, filter, need_down) == Some(i as int),
        r is None ==> spec_top(cands@, filter, need_down) is None,
        r is None <==> forall|j: int| 0 <= j < cands@.len() ==> !spec_eligible(#[trigger] cands@[j], filter, need_down),
{
    let mut best: Option<usize> = None;
    let mut best_key: i64 = 0;
    let mut i: usize = 0;
    while i < cands.len()
        invariant
            i <= cands@.len(),
            best is None ==> forall|j: int| 0 <= j < i ==> !spec_eligible(#[trigger] cands@[j], filter, need_down),
            best matches Some(b) ==> {
                &&& b < i
                &&& spec_eligible(cands@[b as int], filter, need_down)
                &&& best_key == spec_z_key(cands@[b as int].z)
                &&& forall|j: int| 0 <= j < i && spec_eligible(#[trigger] cands@[j], filter, need_down)
                    ==> spec_z_key(cands@[j].z) <= best_key
                &&& forall|j: int| b < j < i && spec_eligible(#[trigger] cands@[j], filter, need_down)
                    ==> spec_z_key(cands@[j].z) < best_key
            },
        decreases cands@.len() - i,
    {
        let c = cands[i];
        if c.active && c.flags.intersects(filter) && c.contains_cursor && (!need_down || c.contains_down) {
            let k = z_key(c.z);
            match best {
                None => {
                    best = Some(i);
                    best_key = k;
                },
                Some(_) => {
                    if k >= best_key {
                        best = Some(i);
                        best_key = k;
                    }
                },
            }
        }
        i = i + 1;
    }
    match best {
        Some(b) => {
            proof {
                lemma_top_is(cands@, filter, need_down, b as int);
            }
        },
        None => {
            assert(!exists|k: int| spec_is_top(cands@, filter, need_down, k));
        },
    }
    best
}


/// A candidate receives `CursorClickOutside` when it listens for it, is active,
/// the cursor is outside of it, and it is not the excluded (dragged) entity.
pub open spec fn spec_outside_eligible(c: CursorCandidate, exclude: Option<u64>) -> bool {
    &&& c.active
    &&& c.flags.spec_intersects(EventFlags(CLICK_OUTSIDE_BIT))
    &&& !c.contains_cursor
    &&& exclude matches Some(e) ==> c.entity != e
}

/// `CursorClickOutside` for every eligible candidate, in candidate order.
pub open spec fn spec_outside_effects(cands: Seq<CursorCandidate>, exclude: Option<u64>) -> Seq<CursorEffect>
    decreases cands.len(),
{
    if cands.len() == 0 {
        Seq::empty()
    } else {
        let prev = spec_outside_effects(cands.drop_last(), exclude);
        if spec_outside_eligible(cands.last(), exclude) {
            prev.push(CursorEffect::ClickOutside(cands.last().entity))
        } else {
            prev
        }
    }
}

fn push_click_outside(effects: &mut Vec<CursorEffect>, cands: &Vec<CursorCandidate>, exclude: Option<u64>)
    ensures
        final(effects)@ == old(effects)@ + spec_outside_effects(cands@, exclude),
{
    let ghost start = effects@;
    let mut i: usize = 0;
    while i < cands.len()
        invariant
            i <= cands@.len(),
            effects@ == start + spec_outside_effects(cands@.subrange(0, i as int), exclude),
        decreases cands@.len() - i,
    {
        let c = cands[i];
        proof {
            assert(cands@.subrange(0, i + 1).drop_last() =~= cands@.subrange(0, i as int));
        }
        let keep = match exclude {
            Some(e) => c.entity != e,
            None => true,
        };
        if c.active && c.flags.intersects(EventFlags(CLICK_OUTSIDE_BIT)) && !c.contains_cursor && keep {
            effects.push(CursorEffect::ClickOutside(c.entity));
            proof {
                assert(start + spec_outside_effects(cands@.subrange(0, i + 1), exclude)
                    =~= (start + spec_outside_effects(cands@.subrange(0, i as int), exclude)).push(
                    CursorEffect::ClickOutside(c.entity),
                ));
            }
        }
        i = i + 1;
    }
    proof {
        assert(cands@.subrange(0, cands@.len() as int) =~= cands@);
    }
}


pub open spec fn spec_pressed(f: CursorFrame, b: MouseButton) -> bool {
    f.buttons.pressed@.contains(b)
}

pub open spec fn spec_just_pressed(f: CursorFrame, b: MouseButton) -> bool {
    f.buttons.just_pressed@.contains(b)
}

pub open spec fn spec_just_released(f: CursorFrame, b: MouseButton) -> bool {
    f.buttons.just_released@.contains(b)
}

/// The focus a dragged entity holds: the drag flag of the dragging button
/// (`LeftDrag` for buttons other than left, right and middle).
pub open spec fn spec_drag_focus(b: MouseButton) -> EventFlags {
    match b {
        MouseButton::Right => EventFlags(RIGHT_DRAG_BIT),
        MouseButton::Middle => EventFlags(MID_DRAG_BIT),
        _ => EventFlags(LEFT_DRAG_BIT),
    }
}

/// While dragging with one button, a press of another one of left, right and
/// middle (looked at in this order) gives the dragged entity that button's `Down`.
pub open spec fn spec_extra_down(f: CursorFrame, drag_button: MouseButton, e: u64) -> Seq<CursorEffect> {
    if drag_button != MouseButton::Left && spec_just_pressed(f, MouseButton::Left) {
        seq![CursorEffect::Action(e, EventFlags(LEFT_DOWN_BIT))]
    } else if drag_button != MouseButton::Right && spec_just_pressed(f, MouseButton::Right) {
        seq![CursorEffect::Action(e, EventFlags(RIGHT_DOWN_BIT))]
    } else if drag_button != MouseButton::Middle && spec_just_pressed(f, MouseButton::Middle) {
        seq![CursorEffect::Action(e, EventFlags(MID_DOWN_BIT))]
    } else {
        Seq::empty()
    }
}

/// A frame while dragging.
///
/// The drag target keeps its drag focus while the drag button is held. When the
/// button goes up it receives `DoubleClick` (if it listens for double clicks and
/// the press was within the double click time) or `DragEnd`; the frontmost
/// `Drop` listener under the cursor receives `Drop`, and `ClickOutside`
/// listeners other than the dragged one receive `CursorClickOutside`.
/// A drag whose target is gone ends silently, except for `ClickOutside`.
pub open spec fn spec_drag_frame(s: CursorState, f: CursorFrame, cands: Seq<CursorCandidate>) -> (CursorState, Seq<CursorEffect>) {
    let s1 = CursorState { catched: true, ..s };
    if s.drag_target is Some && f.drag_target_exists {
        let e = s.drag_target.unwrap();
        if !spec_pressed(f, s.drag_button) {
            let dbl = s.drag_dbl_click && f.double_click_in_time;
            let end = if dbl {
                CursorEffect::Action(e, EventFlags(DOUBLE_CLICK_BIT))
            } else {
                CursorEffect::Action(e, EventFlags(DRAG_END_BIT))
            };
            let drop = match spec_top(cands, EventFlags(DROP_BIT), false) {
                Some(t) => seq![CursorEffect::Action(cands[t].entity, EventFlags(DROP_BIT))],
                None => Seq::empty(),
            };
            (
                CursorState {
                    dragging: false,
                    drag_target: None,
                    last_lmb_down_time: if dbl { (0u32, 0u32) } else { s.last_lmb_down_time },
                    ..s1
                },
                seq![end] + drop + spec_outside_effects(cands, Some(e)),
            )
        } else {
            (s1, spec_extra_down(f, s.drag_button, e).push(CursorEffect::Focus(e, spec_drag_focus(s.drag_button))))
        }
    } else if !spec_pressed(f, s.drag_button) {
        (CursorState { dragging: false, drag_target: None, ..s1 }, spec_outside_effects(cands, None))
    } else {
        (s1, Seq::empty())
    }
}

/// The drag, click, down and pressed flags of a button (middle for any button
/// other than left and right).
pub open spec fn spec_button_bits(b: MouseButton) -> (u32, u32, u32, u32) {
    match b {
        MouseButton::Left => (LEFT_DRAG_BIT, LEFT_CLICK_BIT, LEFT_DOWN_BIT, LEFT_PRESSED_BIT),
        MouseButton::Right => (RIGHT_DRAG_BIT, RIGHT_CLICK_BIT, RIGHT_DOWN_BIT, RIGHT_PRESSED_BIT),
        _ => (MID_DRAG_BIT, MID_CLICK_BIT, MID_DOWN_BIT, MID_PRESSED_BIT),
    }
}

/// A frame while button `b` is held and nothing is dragged.
///
/// When `b` just went down the position is remembered (and, for the left button,
/// the time of the press). The frontmost active listener for `b`'s drag or click
/// under the cursor catches the event: on the press it receives `b`'s `Down` and,
/// if it listens for `b`'s drag, becomes the drag target with drag focus,
/// otherwise it gets `b`'s pressed focus; while held, a click listener keeps the
/// pressed focus. A drag of any button sets `dragging`; only a left drag
/// remembers whether the target listens for double clicks.
pub open spec fn spec_press_frame(
    s: CursorState,
    f: CursorFrame,
    cands: Seq<CursorCandidate>,
    b: MouseButton,
    mouse: Vec2Bits,
) -> (CursorState, Seq<CursorEffect>) {
    let (drag, click, down, pressed) = spec_button_bits(b);
    let jp = spec_just_pressed(f, b);
    let s2 = if jp {
        CursorState {
            down_pos: mouse,
            last_lmb_down_time: if b == MouseButton::Left {
                (s.last_lmb_down_time.1, f.now)
            } else {
                s.last_lmb_down_time
            },
            ..s
        }
    } else {
        s
    };
    match spec_top(cands, EventFlags(drag | click), false) {
        None => (s2, Seq::empty()),
        Some(t) => {
            let c = cands[t];
            let s3 = CursorState { catched: true, ..s2 };
            if jp {
                if c.flags.spec_contains(EventFlags(drag)) {
                    (
                        CursorState {
                            drag_target: Some(c.entity),
                            dragging: true,
                            drag_button: b,
                            drag_dbl_click: b == MouseButton::Left && c.flags.spec_contains(
                                EventFlags(DOUBLE_CLICK_BIT),
                            ),
                            ..s3
                        },
                        seq![
                            CursorEffect::Action(c.entity, EventFlags(down)),
                            CursorEffect::Focus(c.entity, EventFlags(drag)),
                        ],
                    )
                } else {
                    (
                        s3,
                        seq![
                            CursorEffect::Action(c.entity, EventFlags(down)),
                            CursorEffect::Focus(c.entity, EventFlags(pressed)),
                        ],
                    )
                }
            } else if c.flags.spec_contains(EventFlags(click)) {
                (s3, seq![CursorEffect::Focus(c.entity, EventFlags(pressed))])
            } else {
                (s3, Seq::empty())
            }
        },
    }
}

/// A release of button `b`: the frontmost click listener under both the cursor
/// and the press position receives the click (a left click on a double click
/// listener within the double click time is a `DoubleClick` instead, and clears
/// the double click timer).
pub open spec fn spec_click_release(
    s: CursorState,
    f: CursorFrame,
    cands: Seq<CursorCandidate>,
    b: MouseButton,
) -> (CursorState, Seq<CursorEffect>) {
    let click = spec_button_bits(b).1;
    match spec_top(cands, EventFlags(click), true) {
        None => (s, Seq::empty()),
        Some(t) => {
            let e = cands[t].entity;
            if b == MouseButton::Left && cands[t].flags.spec_contains(EventFlags(DOUBLE_CLICK_BIT))
                && f.double_click_in_time {
                (
                    CursorState { catched: true, last_lmb_down_time: (0u32, 0u32), ..s },
                    seq![CursorEffect::Action(e, EventFlags(DOUBLE_CLICK_BIT))],
                )
            } else {
                (CursorState { catched: true, ..s }, seq![CursorEffect::Action(e, EventFlags(click))])
            }
        },
    }
}

/// The button whose release a frame handles: the first of left, right and
/// middle that went up this frame.
pub open spec fn spec_released_button(f: CursorFrame) -> Option<MouseButton> {
    if spec_just_released(f, MouseButton::Left) {
        Some(MouseButton::Left)
    } else if spec_just_released(f, MouseButton::Right) {
        Some(MouseButton::Right)
    } else if spec_just_released(f, MouseButton::Middle) {
        Some(MouseButton::Middle)
    } else {
        None
    }
}

/// A frame with no button held and nothing dragged: a release of left, right
/// or middle (looked at in this order) clicks and sends `ClickOutside`; then the
/// frontmost hover listener under the cursor receives `Hover` focus.
pub open spec fn spec_release_frame(s: CursorState, f: CursorFrame, cands: Seq<CursorCandidate>) -> (CursorState, Seq<CursorEffect>) {
    let (s2, fx) = match spec_released_button(f) {
        Some(b) => {
            let (s_, click) = spec_click_release(s, f, cands, b);
            (s_, click + spec_outside_effects(cands, None))
        },
        None => (s, Seq::empty()),
    };
    match spec_top(cands, EventFlags(HOVER_BIT), false) {
        None => (s2, fx),
        Some(t) => (CursorState { catched: true, ..s2 }, fx.push(CursorEffect::Focus(cands[t].entity, EventFlags(HOVER_BIT)))),
    }
}

/// One frame of the cursor system: the new state and the components to insert.
///
/// `catched` is cleared first; a blocked system or a frame without a cursor
/// position does nothing else. Otherwise the cursor position is recorded and the
/// frame is a drag frame, a press frame of the first held button among left,
/// right and middle, or a release frame.
pub open spec fn spec_mouse_button_input(s: CursorState, f: CursorFrame, cands: Seq<CursorCandidate>) -> (CursorState, Seq<CursorEffect>) {
    let s0 = CursorState { catched: false, ..s };
    if s.blocked || f.mouse_pos is None {
        (s0, Seq::empty())
    } else {
        let mouse = f.mouse_pos.unwrap();
        let s1 = CursorState { cursor_pos: mouse, ..s0 };
        if s.dragging {
            spec_drag_frame(s1, f, cands)
        } else if spec_pressed(f, MouseButton::Left) {
            spec_press_frame(s1, f, cands, MouseButton::Left, mouse)
        } else if spec_pressed(f, MouseButton::Right) {
            spec_press_frame(s1, f, cands, MouseButton::Right, mouse)
        } else if spec_pressed(f, MouseButton::Middle) {
            spec_press_frame(s1, f, cands, MouseButton::Middle, mouse)
        } else {
            spec_release_frame(s1, f, cands)
        }
    }
}


fn button_bits(b: MouseButton) -> (r: (u32, u32, u32, u32))
    ensures
        r == spec_button_bits(b),
{
    match b {
        MouseButton::Left => (LEFT_DRAG_BIT, LEFT_CLICK_BIT, LEFT_DOWN_BIT, LEFT_PRESSED_BIT),
        MouseButton::Right => (RIGHT_DRAG_BIT, RIGHT_CLICK_BIT, RIGHT_DOWN_BIT, RIGHT_PRESSED_BIT),
        _ => (MID_DRAG_BIT, MID_CLICK_BIT, MID_DOWN_BIT, MID_PRESSED_BIT),
    }
}

fn drag_frame(state: &mut CursorState, frame: &CursorFrame, cands: &Vec<CursorCandidate>) -> (fx: Vec<CursorEffect>)
    ensures
        *final(state) == spec_drag_frame(*old(state), *frame, cands@).0,
        fx@ == spec_drag_frame(*old(state), *frame, cands@).1,
{
    state.catched = true;
    let held = frame.buttons.pressed(state.drag_button);
    let mut fx: Vec<CursorEffect> = Vec::new();
    match state.drag_target {
        Some(e) => {
            if frame.drag_target_exists {
                if !held {
                    if state.drag_dbl_click && frame.double_click_in_time {
                        fx.push(CursorEffect::Action(e, EventFlags(DOUBLE_CLICK_BIT)));
                        state.clear_dbl_click();
                    } else {
                        fx.push(CursorEffect::Action(e, EventFlags(DRAG_END_BIT)));
                    }
                    state.dragging = false;
                    state.drag_target = None;
                    match top_candidate(cands, EventFlags(DROP_BIT), false) {
                        Some(t) => {
                            fx.push(CursorEffect::Action(cands[t].entity, EventFlags(DROP_BIT)));
                        },
                        None => {},
                    }
                    push_click_outside(&mut fx, cands, Some(e));
                    return fx;
                } else {
                    let b = state.drag_button;
                    if b != MouseButton::Left && frame.buttons.just_pressed(MouseButton::Left) {
                        fx.push(CursorEffect::Action(e, EventFlags(LEFT_DOWN_BIT)));
                    } else if b != MouseButton::Right && frame.buttons.just_pressed(MouseButton::Right) {
                        fx.push(CursorEffect::Action(e, EventFlags(RIGHT_DOWN_BIT)));
                    } else if b != MouseButton::Middle && frame.buttons.just_pressed(MouseButton::Middle) {
                        fx.push(CursorEffect::Action(e, EventFlags(MID_DOWN_BIT)));
                    }
                    let focus = match b {
                        MouseButton::Left => LEFT_DRAG_BIT,
                        MouseButton::Right => RIGHT_DRAG_BIT,
                        MouseButton::Middle => MID_DRAG_BIT,
                        MouseButton::Other(_) => LEFT_DRAG_BIT,
                    };
                    fx.push(CursorEffect::Focus(e, EventFlags(focus)));
                    return fx;
                }
            }
        },
        None => {},
    }
    if !held {
        state.dragging = false;
        state.drag_target = None;
        push_click_outside(&mut fx, cands, None);
    }
    fx
}

fn press_frame(
    state: &mut CursorState,
    frame: &CursorFrame,
    cands: &Vec<CursorCandidate>,
    b: MouseButton,
    mouse: Vec2Bits,
) -> (fx: Vec<CursorEffect>)
    ensures
        *final(state) == spec_press_frame(*old(state), *frame, cands@, b, mouse).0,
        fx@ == spec_press_frame(*old(state), *frame, cands@, b, mouse).1,
{
    let (drag, click, down, pressed) = button_bits(b);
    let jp = frame.buttons.just_pressed(b);
    if jp {
        state.down_pos = mouse;
        if b == MouseButton::Left {
            state.last_lmb_down_time = (state.last_lmb_down_time.1, frame.now);
        }
    }
    let mut fx: Vec<CursorEffect> = Vec::new();
    match top_candidate(cands, EventFlags(drag | click), false) {
        None => {},
        Some(t) => {
            let c = cands[t];
            state.catched = true;
            if jp {
                fx.push(CursorEffect::Action(c.entity, EventFlags(down)));
                if c.flags.contains(EventFlags(drag)) {
                    state.drag_target = Some(c.entity);
                    state.dragging = true;
                    state.drag_button = b;
                    state.drag_dbl_click = b == MouseButton::Left && c.flags.contains(EventFlags(DOUBLE_CLICK_BIT));
                    fx.push(CursorEffect::Focus(c.entity, EventFlags(drag)));
                } else {
                    fx.push(CursorEffect::Focus(c.entity, EventFlags(pressed)));
                }
            } else if c.flags.contains(EventFlags(click)) {
                fx.push(CursorEffect::Focus(c.entity, EventFlags(pressed)));
            }
        },
    }
    fx
}

fn click_release(
    state: &mut CursorState,
    frame: &CursorFrame,
    cands: &Vec<CursorCandidate>,
    b: MouseButton,
) -> (fx: Vec<CursorEffect>)
    ensures
        *final(state) == spec_click_release(*old(state), *frame, cands@, b).0,
        fx@ == spec_click_release(*old(state), *frame, cands@, b).1,
{
    let click = button_bits(b).1;
    let mut fx: Vec<CursorEffect> = Vec::new();
    match top_candidate(cands, EventFlags(click), true) {
        None => {},
        Some(t) => {
            let c = cands[t];
            if b == MouseButton::Left && c.flags.contains(EventFlags(DOUBLE_CLICK_BIT)) && frame.double_click_in_time {
                fx.push(CursorEffect::Action(c.entity, EventFlags(DOUBLE_CLICK_BIT)));
                state.clear_dbl_click();
            } else {
                fx.push(CursorEffect::Action(c.entity, EventFlags(click)));
            }
            state.catched = true;
        },
    }
    fx
}

fn release_frame(state: &mut CursorState, frame: &CursorFrame, cands: &Vec<CursorCandidate>) -> (fx: Vec<CursorEffect>)
    ensures
        *final(state) == spec_release_frame(*old(state), *frame, cands@).0,
        fx@ == spec_release_frame(*old(state), *frame, cands@).1,
{
    let released = if frame.buttons.just_released(MouseButton::Left) {
        Some(MouseButton::Left)
    } else if frame.buttons.just_released(MouseButton::Right) {
        Some(MouseButton::Right)
    } else if frame.buttons.just_released(MouseButton::Middle) {
        Some(MouseButton::Middle)
    } else {
        None
    };
    let mut fx: Vec<CursorEffect> = match released {
        Some(b) => {
            let mut fx = click_release(state, frame, cands, b);
            push_click_outside(&mut fx, cands, None);
            fx
        },
        None => Vec::new(),
    };
    match top_candidate(cands, EventFlags(HOVER_BIT), false) {
        Some(t) => {
            fx.push(CursorEffect::Focus(cands[t].entity, EventFlags(HOVER_BIT)));
            state.catched = true;
        },
        None => {},
    }
    fx
}

/// One frame of the cursor system, see [`spec_mouse_button_input`]: updates the
/// state and returns, in order, the components to insert.
pub fn mouse_button_input(state: &mut CursorState, frame: &CursorFrame, candidates: &Vec<CursorCandidate>) -> (effects: Vec<CursorEffect>)
    ensures
        *final(state) == spec_mouse_button_input(*old(state), *frame, candidates@).0,
        effects@ == spec_mouse_button_input(*old(state), *frame, candidates@).1,
{
    state.catched = false;
    if state.blocked {
        return Vec::new();
    }
    let mouse = match frame.mouse_pos {
        Some(m) => m,
        None => {
            return Vec::new();
        },
    };
    state.cursor_pos = mouse;
    if state.dragging {
        drag_frame(state, frame, candidates)
    } else if frame.buttons.pressed(MouseButton::Left) {
        press_frame(state, frame, candidates, MouseButton::Left, mouse)
    } else if frame.buttons.pressed(MouseButton::Right) {
        press_frame(state, frame, candidates, MouseButton::Right, mouse)
    } else if frame.buttons.pressed(MouseButton::Middle) {
        press_frame(state, frame, candidates, MouseButton::Middle, mouse)
    } else {
        release_frame(state, frame, candidates)
    }
}


/// The entity that receives this frame's mouse wheel scrolling: the frontmost
/// active `MouseWheel` listener under the cursor.
pub fn mousewheel_target(candidates: &Vec<CursorCandidate>) -> (r: Option<u64>)
    ensures
        r matches Some(e) ==> spec_top(candidates@, EventFlags(MOUSE_WHEEL_BIT), false) matches Some(t)
            && candidates@[t].entity == e,
        r is None <==> spec_top(candidates@, EventFlags(MOUSE_WHEEL_BIT), false) is None,
{
    match top_candidate(candidates, EventFlags(MOUSE_WHEEL_BIT), false) {
        Some(t) => Some(candidates[t].entity),
        None => None,
    }
}

} // verus!
