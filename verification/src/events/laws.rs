use vstd::prelude::*;
use crate::events::flags::{
    EventFlags, LEFT_CLICK_BIT, MID_CLICK_BIT, RIGHT_CLICK_BIT, DOUBLE_CLICK_BIT, DROP_BIT, DRAG_END_BIT,
    HOVER_BIT, BLOCK_ALL_BITS, LEFT_DRAG_BIT, MID_DRAG_BIT, RIGHT_DRAG_BIT,
    LEFT_DOWN_BIT, RIGHT_DOWN_BIT, MID_DOWN_BIT, LEFT_PRESSED_BIT, RIGHT_PRESSED_BIT, MID_PRESSED_BIT,
    CLICK_OUTSIDE_BIT,
};
use crate::events::cursor::{MouseButton, CursorState};
use crate::events::systems::{
    CursorCandidate, CursorEffect, CursorFrame, spec_mouse_button_input, spec_outside_effects,
    spec_outside_eligible, spec_top, spec_is_top, spec_eligible, spec_pressed, spec_drag_frame,
    spec_press_frame, spec_release_frame, spec_click_release, spec_extra_down, spec_button_bits,
    spec_z_key, lemma_top_unique, spec_released_button,
};

verus! {

/// How many effects insert `CursorFocus`.
pub open spec fn spec_focus_count(fx: Seq<CursorEffect>) -> nat
    decreases fx.len(),
{
    if fx.len() == 0 {
        0
    } else {
        spec_focus_count(fx.drop_last()) + if fx.last() is Focus { 1nat } else { 0nat }
    }
}

/// How many effects insert `CursorAction`.
pub open spec fn spec_action_count(fx: Seq<CursorEffect>) -> nat
    decreases fx.len(),
{
    if fx.len() == 0 {
        0
    } else {
        spec_action_count(fx.drop_last()) + if fx.last() is Action { 1nat } else { 0nat }
    }
}

proof fn lemma_count_concat(a: Seq<CursorEffect>, b: Seq<CursorEffect>)
    ensures
        spec_focus_count(a + b) == spec_focus_count(a) + spec_focus_count(b),
        spec_action_count(a + b) == spec_action_count(a) + spec_action_count(b),
    decreases b.len(),
{
    if b.len() == 0 {
        assert(a + b =~= a);
    } else {
        assert((a + b).drop_last() =~= a + b.drop_last());
        lemma_count_concat(a, b.drop_last());
    }
}

proof fn lemma_count_small(x: CursorEffect, y: CursorEffect)
    ensures
        spec_focus_count(Seq::<CursorEffect>::empty()) == 0,
        spec_action_count(Seq::<CursorEffect>::empty()) == 0,
        spec_focus_count(seq![x]) == if x is Focus { 1nat } else { 0nat },
        spec_action_count(seq![x]) == if x is Action { 1nat } else { 0nat },
        spec_focus_count(seq![x, y]) == (if x is Focus { 1nat } else { 0nat }) + (if y is Focus { 1nat } else { 0nat }),
        spec_action_count(seq![x, y]) == (if x is Action { 1nat } else { 0nat }) + (if y is Action { 1nat } else { 0nat }),
{
    let one = seq![x];
    let two = seq![x, y];
    assert(one.drop_last() =~= Seq::<CursorEffect>::empty());
    assert(two.drop_last() =~= one);
    assert(one.last() == x);
    assert(two.last() == y);
    assert(spec_focus_count(one) == spec_focus_count(Seq::<CursorEffect>::empty()) + if x is Focus { 1nat } else { 0nat });
    assert(spec_focus_count(two) == spec_focus_count(one) + if y is Focus { 1nat } else { 0nat });
    assert(spec_action_count(one) == spec_action_count(Seq::<CursorEffect>::empty()) + if x is Action { 1nat } else { 0nat });
    assert(spec_action_count(two) == spec_action_count(one) + if y is Action { 1nat } else { 0nat });
}

/// Every `ClickOutside` effect comes from an eligible candidate, and nothing else
/// is produced.
proof fn lemma_outside_effects(cands: Seq<CursorCandidate>, exclude: Option<u64>)
    ensures
        forall|i: int| 0 <= i < spec_outside_effects(cands, exclude).len() ==> {
            &&& #[trigger] spec_outside_effects(cands, exclude)[i] is ClickOutside
            &&& exists|j: int| 0 <= j < cands.len()
                && cands[j].entity == spec_outside_effects(cands, exclude)[i]->ClickOutside_0
                && spec_outside_eligible(#[trigger] cands[j], exclude)
        },
        spec_focus_count(spec_outside_effects(cands, exclude)) == 0,
        spec_action_count(spec_outside_effects(cands, exclude)) == 0,
    decreases cands.len(),
{
    if cands.len() > 0 {
        let prev = cands.drop_last();
        lemma_outside_effects(prev, exclude);
        let fx = spec_outside_effects(cands, exclude);
        let pfx = spec_outside_effects(prev, exclude);
        assert forall|i: int| 0 <= i < fx.len() implies {
            &&& #[trigger] fx[i] is ClickOutside
            &&& exists|j: int| 0 <= j < cands.len()
                && cands[j].entity == fx[i]->ClickOutside_0
                && spec_outside_eligible(#[trigger] cands[j], exclude)
        } by {
            if i < pfx.len() {
                assert(fx[i] == pfx[i]);
                let j = choose|j: int| 0 <= j < prev.len()
                    && prev[j].entity == pfx[i]->ClickOutside_0
                    && spec_outside_eligible(#[trigger] prev[j], exclude);
                assert(cands[j] == prev[j]);
            } else {
                assert(cands[cands.len() - 1] == cands.last());
            }
        }
        assert(fx.len() == 0 || fx.drop_last() == pfx || fx == pfx);
    }
}

/// A blocked cursor system, or one without a cursor position, only clears
/// `catched` and inserts nothing.
pub proof fn lemma_blocked_frame(s: CursorState, f: CursorFrame, cands: Seq<CursorCandidate>)
    requires
        s.blocked || f.mouse_pos is None,
    ensures
        spec_mouse_button_input(s, f, cands).0 == (CursorState { catched: false, ..s }),
        spec_mouse_button_input(s, f, cands).1.len() == 0,
{
}

/// A frame gives at most one entity `CursorFocus`.
pub proof fn lemma_one_focus_per_frame(s: CursorState, f: CursorFrame, cands: Seq<CursorCandidate>)
    ensures
        spec_focus_count(spec_mouse_button_input(s, f, cands).1) <= 1,
{
    lemma_outside_effects(cands, None);
    if !(s.blocked || f.mouse_pos is None) {
        let mouse = f.mouse_pos.unwrap();
        let s1 = CursorState { cursor_pos: mouse, catched: false, ..s };
        if s.dragging {
            if s.drag_target is Some && f.drag_target_exists {
                let e = s.drag_target.unwrap();
                lemma_outside_effects(cands, Some(e));
                if !spec_pressed(f, s.drag_button) {
                    let fx = spec_drag_frame(s1, f, cands).1;
                    let drop = match spec_top(cands, EventFlags(DROP_BIT), false) {
                        Some(t) => seq![CursorEffect::Action(cands[t].entity, EventFlags(DROP_BIT))],
                        None => Seq::<CursorEffect>::empty(),
                    };
                    let end = fx[0];
                    lemma_count_concat(seq![end] + drop, spec_outside_effects(cands, Some(e)));
                    lemma_count_concat(seq![end], drop);
                    lemma_count_small(end, end);
                    if drop.len() > 0 {
                        lemma_count_small(drop[0], drop[0]);
                        assert(drop =~= seq![drop[0]]);
                    }
                    assert(fx =~= seq![end] + drop + spec_outside_effects(cands, Some(e)));
                    assert(spec_focus_count(fx) <= 1);
                    assert(spec_mouse_button_input(s, f, cands).1 == fx);
                } else {
                    let down = spec_extra_down(f, s.drag_button, e);
                    let fx = spec_drag_frame(s1, f, cands).1;
                    assert(fx.drop_last() =~= down);
                    if down.len() > 0 {
                        lemma_count_small(down[0], down[0]);
                        assert(down =~= seq![down[0]]);
                    } else {
                        lemma_count_small(fx[0], fx[0]);
                    }
                    assert(spec_focus_count(fx) <= 1);
                    assert(spec_mouse_button_input(s, f, cands).1 == fx);
                }
            }
        } else if spec_pressed(f, MouseButton::Left) || spec_pressed(f, MouseButton::Right)
            || spec_pressed(f, MouseButton::Middle) {
            let b = if spec_pressed(f, MouseButton::Left) {
                MouseButton::Left
            } else if spec_pressed(f, MouseButton::Right) {
                MouseButton::Right
            } else {
                MouseButton::Middle
            };
            let fx = spec_press_frame(s1, f, cands, b, mouse).1;
            if fx.len() == 2 {
                lemma_count_small(fx[0], fx[1]);
                assert(fx =~= seq![fx[0], fx[1]]);
            } else if fx.len() == 1 {
                lemma_count_small(fx[0], fx[0]);
                assert(fx =~= seq![fx[0]]);
            } else {
                lemma_count_small(CursorEffect::ClickOutside(0), CursorEffect::ClickOutside(0));
                assert(fx =~= Seq::<CursorEffect>::empty());
            }
            assert(spec_focus_count(fx) <= 1);
            assert(spec_mouse_button_input(s, f, cands).1 == fx);
        } else {
            let released = spec_released_button(f);
            let pre = match released {
                Some(b) => spec_click_release(s1, f, cands, b).1 + spec_outside_effects(cands, None),
                None => Seq::<CursorEffect>::empty(),
            };
            match released {
                Some(b) => {
                    let click = spec_click_release(s1, f, cands, b).1;
                    lemma_count_concat(click, spec_outside_effects(cands, None));
                    assert(click.len() == 0 || (click.len() == 1 && click[0] is Action));
                    if click.len() > 0 {
                        assert(click.drop_last() =~= Seq::<CursorEffect>::empty());
                        assert(spec_focus_count(Seq::<CursorEffect>::empty()) == 0);
                        assert(spec_focus_count(click) == 0);
                    }
                },
                None => {},
            }
            assert(spec_focus_count(pre) == 0);
            let fx = spec_release_frame(s1, f, cands).1;
            if fx.len() > pre.len() {
                assert(fx.drop_last() =~= pre);
            } else {
                assert(fx =~= pre);
            }
            assert(spec_focus_count(fx) <= 1);
            assert(spec_mouse_button_input(s, f, cands).1 == fx);
        }
    }
}


proof fn lemma_top_some(cands: Seq<CursorCandidate>, filter: EventFlags, need_down: bool)
    ensures
        spec_top(cands, filter, need_down) matches Some(t) ==> spec_is_top(cands, filter, need_down, t),
{
}

/// An effect that clicks: `CursorAction` with `LeftClick`, `RightClick` or `MidClick`.
pub open spec fn spec_is_click(e: CursorEffect) -> bool {
    e matches CursorEffect::Action(_, fl) && (fl == EventFlags(LEFT_CLICK_BIT) || fl
        == EventFlags(RIGHT_CLICK_BIT) || fl == EventFlags(MID_CLICK_BIT))
}

/// The entity of an effect.
pub open spec fn spec_effect_entity(e: CursorEffect) -> u64 {
    match e {
        CursorEffect::Action(x, _) => x,
        CursorEffect::Focus(x, _) => x,
        CursorEffect::ClickOutside(x) => x,
    }
}

/// A click requires the button to go down and up inside the sprite: every clicked
/// entity is a candidate under both the cursor and the press position.
pub proof fn lemma_click_inside(s: CursorState, f: CursorFrame, cands: Seq<CursorCandidate>)
    ensures
        forall|i: int| 0 <= i < spec_mouse_button_input(s, f, cands).1.len()
            && spec_is_click(#[trigger] spec_mouse_button_input(s, f, cands).1[i])
            ==> exists|j: int| 0 <= j < cands.len()
                && cands[j].entity == spec_effect_entity(spec_mouse_button_input(s, f, cands).1[i])
                && (#[trigger] cands[j]).contains_cursor && cands[j].contains_down,
{
    let fx = spec_mouse_button_input(s, f, cands).1;
    lemma_outside_effects(cands, None);
    if s.drag_target is Some {
        lemma_outside_effects(cands, Some(s.drag_target.unwrap()));
    }
    lemma_top_some(cands, EventFlags(LEFT_CLICK_BIT), true);
    lemma_top_some(cands, EventFlags(RIGHT_CLICK_BIT), true);
    lemma_top_some(cands, EventFlags(MID_CLICK_BIT), true);
    assert forall|i: int| 0 <= i < fx.len() && spec_is_click(#[trigger] fx[i]) implies exists|j: int|
        0 <= j < cands.len() && cands[j].entity == spec_effect_entity(fx[i])
            && (#[trigger] cands[j]).contains_cursor && cands[j].contains_down by {
        let mouse = f.mouse_pos.unwrap();
        let s1 = CursorState { cursor_pos: mouse, catched: false, ..s };
        if s.dragging {
            assert(fx == spec_drag_frame(s1, f, cands).1);
            if s.drag_target is Some && f.drag_target_exists && !spec_pressed(f, s.drag_button) {
                let e = s.drag_target.unwrap();
                let drop = match spec_top(cands, EventFlags(DROP_BIT), false) {
                    Some(t) => seq![CursorEffect::Action(cands[t].entity, EventFlags(DROP_BIT))],
                    None => Seq::<CursorEffect>::empty(),
                };
                let pre = seq![fx[0]] + drop;
                assert(fx =~= pre + spec_outside_effects(cands, Some(e)));
                if i >= pre.len() {
                    assert(fx[i] == spec_outside_effects(cands, Some(e))[i - pre.len()]);
                }
            }
        } else if spec_pressed(f, MouseButton::Left) || spec_pressed(f, MouseButton::Right)
            || spec_pressed(f, MouseButton::Middle) {
        } else {
            let released = spec_released_button(f);
            assert(fx == spec_release_frame(s1, f, cands).1);
            match released {
                Some(b) => {
                    let click = spec_click_release(s1, f, cands, b).1;
                    let pre = click + spec_outside_effects(cands, None);
                    if i < click.len() {
                        assert(fx[i] == click[i]);
                        let t = spec_top(cands, EventFlags(spec_button_bits(b).1), true).unwrap();
                        assert(spec_eligible(cands[t], EventFlags(spec_button_bits(b).1), true));
                    } else if i < pre.len() {
                        assert(fx[i] == spec_outside_effects(cands, None)[i - click.len()]);
                    }
                },
                None => {},
            }
        }
    }
}

/// `ClickOutside` requires the cursor to be outside of the sprite, and never
/// reaches the sprite being dragged.
pub proof fn lemma_click_outside_outside(s: CursorState, f: CursorFrame, cands: Seq<CursorCandidate>)
    ensures
        forall|i: int| 0 <= i < spec_mouse_button_input(s, f, cands).1.len()
            && (#[trigger] spec_mouse_button_input(s, f, cands).1[i]) is ClickOutside
            ==> {
                &&& exists|j: int| 0 <= j < cands.len()
                    && cands[j].entity == spec_effect_entity(spec_mouse_button_input(s, f, cands).1[i])
                    && spec_outside_eligible(#[trigger] cands[j], None)
                &&& s.dragging && f.drag_target_exists && s.drag_target is Some
                    ==> spec_effect_entity(spec_mouse_button_input(s, f, cands).1[i]) != s.drag_target.unwrap()
            },
{
    let fx = spec_mouse_button_input(s, f, cands).1;
    lemma_outside_effects(cands, None);
    if s.drag_target is Some {
        lemma_outside_effects(cands, Some(s.drag_target.unwrap()));
    }
    assert forall|i: int| 0 <= i < fx.len() && (#[trigger] fx[i]) is ClickOutside implies {
        &&& exists|j: int| 0 <= j < cands.len()
            && cands[j].entity == spec_effect_entity(fx[i])
            && spec_outside_eligible(#[trigger] cands[j], None)
        &&& s.dragging && f.drag_target_exists && s.drag_target is Some
            ==> spec_effect_entity(fx[i]) != s.drag_target.unwrap()
    } by {
        let mouse = f.mouse_pos.unwrap();
        let s1 = CursorState { cursor_pos: mouse, catched: false, ..s };
        if s.dragging {
            assert(fx == spec_drag_frame(s1, f, cands).1);
            if s.drag_target is Some && f.drag_target_exists {
                let e = s.drag_target.unwrap();
                if !spec_pressed(f, s.drag_button) {
                    let drop = match spec_top(cands, EventFlags(DROP_BIT), false) {
                        Some(t) => seq![CursorEffect::Action(cands[t].entity, EventFlags(DROP_BIT))],
                        None => Seq::<CursorEffect>::empty(),
                    };
                    let pre = seq![fx[0]] + drop;
                    assert(fx =~= pre + spec_outside_effects(cands, Some(e)));
                    if i >= pre.len() {
                        let k = i - pre.len();
                        assert(fx[i] == spec_outside_effects(cands, Some(e))[k]);
                        let j = choose|j: int| 0 <= j < cands.len()
                            && cands[j].entity == spec_outside_effects(cands, Some(e))[k]->ClickOutside_0
                            && spec_outside_eligible(#[trigger] cands[j], Some(e));
                        assert(spec_outside_eligible(cands[j], None));
                    }
                } else {
                    let down = spec_extra_down(f, s.drag_button, e);
                    assert(fx.drop_last() =~= down);
                    if i < down.len() {
                        assert(fx[i] == down[i]);
                    }
                }
            }
        } else if spec_pressed(f, MouseButton::Left) || spec_pressed(f, MouseButton::Right)
            || spec_pressed(f, MouseButton::Middle) {
        } else {
            let released = spec_released_button(f);
            assert(fx == spec_release_frame(s1, f, cands).1);
            match released {
                Some(b) => {
                    let click = spec_click_release(s1, f, cands, b).1;
                    let pre = click + spec_outside_effects(cands, None);
                    if i < click.len() {
                        assert(fx[i] == click[i]);
                    } else if i < pre.len() {
                        assert(fx[i] == spec_outside_effects(cands, None)[i - click.len()]);
                    }
                },
                None => {},
            }
        }
    }
}


/// The frame ends a drag whose target is alive and the frontmost drop listener
/// under the cursor receives `Drop`.
pub open spec fn spec_drop_frame(s: CursorState, f: CursorFrame, cands: Seq<CursorCandidate>) -> bool {
    &&& !s.blocked
    &&& f.mouse_pos is Some
    &&& s.dragging
    &&& s.drag_target is Some
    &&& f.drag_target_exists
    &&& !spec_pressed(f, s.drag_button)
    &&& spec_top(cands, EventFlags(DROP_BIT), false) is Some
}

/// A frame gives at most one entity `CursorAction`, except when a drag ends
/// over a drop listener: then the dragged entity gets `DragEnd` (or
/// `DoubleClick`) and the drop listener gets `Drop`.
pub proof fn lemma_one_action_per_frame(s: CursorState, f: CursorFrame, cands: Seq<CursorCandidate>)
    ensures
        !spec_drop_frame(s, f, cands) ==> spec_action_count(spec_mouse_button_input(s, f, cands).1) <= 1,
        spec_drop_frame(s, f, cands) ==> spec_action_count(spec_mouse_button_input(s, f, cands).1) == 2,
{
    lemma_outside_effects(cands, None);
    if !(s.blocked || f.mouse_pos is None) {
        let mouse = f.mouse_pos.unwrap();
        let s1 = CursorState { cursor_pos: mouse, catched: false, ..s };
        if s.dragging {
            if s.drag_target is Some && f.drag_target_exists {
                let e = s.drag_target.unwrap();
                lemma_outside_effects(cands, Some(e));
                let fx = spec_drag_frame(s1, f, cands).1;
                assert(spec_mouse_button_input(s, f, cands).1 == fx);
                if !spec_pressed(f, s.drag_button) {
                    let drop = match spec_top(cands, EventFlags(DROP_BIT), false) {
                        Some(t) => seq![CursorEffect::Action(cands[t].entity, EventFlags(DROP_BIT))],
                        None => Seq::<CursorEffect>::empty(),
                    };
                    let end = fx[0];
                    assert(fx =~= seq![end] + drop + spec_outside_effects(cands, Some(e)));
                    lemma_count_concat(seq![end] + drop, spec_outside_effects(cands, Some(e)));
                    lemma_count_concat(seq![end], drop);
                    lemma_count_small(end, end);
                    if drop.len() > 0 {
                        lemma_count_small(drop[0], drop[0]);
                        assert(drop =~= seq![drop[0]]);
                    }
                } else {
                    let down = spec_extra_down(f, s.drag_button, e);
                    assert(fx.drop_last() =~= down);
                    if down.len() > 0 {
                        lemma_count_small(down[0], down[0]);
                        assert(down =~= seq![down[0]]);
                    } else {
                        lemma_count_small(fx[0], fx[0]);
                    }
                }
            } else {
                lemma_count_small(CursorEffect::ClickOutside(0), CursorEffect::ClickOutside(0));
            }
        } else if spec_pressed(f, MouseButton::Left) || spec_pressed(f, MouseButton::Right)
            || spec_pressed(f, MouseButton::Middle) {
            let b = if spec_pressed(f, MouseButton::Left) {
                MouseButton::Left
            } else if spec_pressed(f, MouseButton::Right) {
                MouseButton::Right
            } else {
                MouseButton::Middle
            };
            let fx = spec_press_frame(s1, f, cands, b, mouse).1;
            assert(spec_mouse_button_input(s, f, cands).1 == fx);
            if fx.len() == 2 {
                lemma_count_small(fx[0], fx[1]);
                assert(fx =~= seq![fx[0], fx[1]]);
            } else if fx.len() == 1 {
                lemma_count_small(fx[0], fx[0]);
                assert(fx =~= seq![fx[0]]);
            } else {
                lemma_count_small(CursorEffect::ClickOutside(0), CursorEffect::ClickOutside(0));
                assert(fx =~= Seq::<CursorEffect>::empty());
            }
        } else {
            let released = spec_released_button(f);
            let pre = match released {
                Some(b) => spec_click_release(s1, f, cands, b).1 + spec_outside_effects(cands, None),
                None => Seq::<CursorEffect>::empty(),
            };
            lemma_count_small(CursorEffect::ClickOutside(0), CursorEffect::ClickOutside(0));
            match released {
                Some(b) => {
                    let click = spec_click_release(s1, f, cands, b).1;
                    lemma_count_concat(click, spec_outside_effects(cands, None));
                    if click.len() > 0 {
                        lemma_count_small(click[0], click[0]);
                        assert(click =~= seq![click[0]]);
                    }
                },
                None => {},
            }
            let fx = spec_release_frame(s1, f, cands).1;
            assert(spec_mouse_button_input(s, f, cands).1 == fx);
            if fx.len() > pre.len() {
                assert(fx.drop_last() =~= pre);
            } else {
                assert(fx =~= pre);
            }
        }
    } else {
        lemma_count_small(CursorEffect::ClickOutside(0), CursorEffect::ClickOutside(0));
    }
}

/// The button a frame's press handling looks at: the first of left, right and
/// middle that is held.
pub open spec fn spec_held_button(f: CursorFrame) -> Option<MouseButton> {
    if spec_pressed(f, MouseButton::Left) {
        Some(MouseButton::Left)
    } else if spec_pressed(f, MouseButton::Right) {
        Some(MouseButton::Right)
    } else if spec_pressed(f, MouseButton::Middle) {
        Some(MouseButton::Middle)
    } else {
        None
    }
}

/// A drag ends in the first frame its button is up, and it starts only when
/// the held button (the first of left, right and middle) just went down, that
/// button being the one that drags.
pub proof fn lemma_drag_lifecycle(s: CursorState, f: CursorFrame, cands: Seq<CursorCandidate>)
    ensures
        !s.blocked && f.mouse_pos is Some && s.dragging && !spec_pressed(f, s.drag_button) ==> {
            &&& !spec_mouse_button_input(s, f, cands).0.dragging
            &&& spec_mouse_button_input(s, f, cands).0.drag_target is None
        },
        !s.dragging && spec_mouse_button_input(s, f, cands).0.dragging ==> {
            &&& spec_held_button(f) == Some(spec_mouse_button_input(s, f, cands).0.drag_button)
            &&& crate::events::systems::spec_just_pressed(f, spec_mouse_button_input(s, f, cands).0.drag_button)
            &&& spec_mouse_button_input(s, f, cands).0.drag_target is Some
        },
{
}

/// A press of left, right or middle on a listener for that button's drag,
/// frontmost under the cursor among the listeners for that button, starts a
/// drag of that button with that listener as the target.
pub proof fn lemma_drag_starts(s: CursorState, f: CursorFrame, cands: Seq<CursorCandidate>, b: MouseButton, t: int)
    requires
        !s.blocked,
        f.mouse_pos is Some,
        !s.dragging,
        spec_held_button(f) == Some(b),
        crate::events::systems::spec_just_pressed(f, b),
        spec_top(cands, EventFlags(spec_button_bits(b).0 | spec_button_bits(b).1), false) == Some(t),
        cands[t].flags.spec_contains(EventFlags(spec_button_bits(b).0)),
    ensures
        spec_mouse_button_input(s, f, cands).0.dragging,
        spec_mouse_button_input(s, f, cands).0.drag_button == b,
        spec_mouse_button_input(s, f, cands).0.drag_target == Some(cands[t].entity),
{
}

/// A dragged entity receives the `Down` of another button pressed during the
/// drag, whatever it listens for: the first of left, right and middle that just
/// went down and is not the dragging button.
pub proof fn lemma_down_while_dragging(s: CursorState, f: CursorFrame, cands: Seq<CursorCandidate>)
    requires
        !s.blocked,
        f.mouse_pos is Some,
        s.dragging,
        s.drag_target is Some,
        f.drag_target_exists,
        spec_pressed(f, s.drag_button),
    ensures
        s.drag_button != MouseButton::Left && crate::events::systems::spec_just_pressed(f, MouseButton::Left)
            ==> spec_mouse_button_input(s, f, cands).1[0] == CursorEffect::Action(
                s.drag_target.unwrap(),
                EventFlags(crate::events::flags::LEFT_DOWN_BIT),
            ),
        !(s.drag_button != MouseButton::Left && crate::events::systems::spec_just_pressed(f, MouseButton::Left))
            && s.drag_button != MouseButton::Right && crate::events::systems::spec_just_pressed(f, MouseButton::Right)
            ==> spec_mouse_button_input(s, f, cands).1[0] == CursorEffect::Action(
                s.drag_target.unwrap(),
                EventFlags(crate::events::flags::RIGHT_DOWN_BIT),
            ),
        !(s.drag_button != MouseButton::Left && crate::events::systems::spec_just_pressed(f, MouseButton::Left))
            && !(s.drag_button != MouseButton::Right && crate::events::systems::spec_just_pressed(f, MouseButton::Right))
            && s.drag_button != MouseButton::Middle && crate::events::systems::spec_just_pressed(f, MouseButton::Middle)
            ==> spec_mouse_button_input(s, f, cands).1[0] == CursorEffect::Action(
                s.drag_target.unwrap(),
                EventFlags(crate::events::flags::MID_DOWN_BIT),
            ),
{
}

/// A double click replaces the click or the drag end: it comes only within the
/// double click time and clears the double click timer, and an entity that
/// receives `DoubleClick` receives neither `LeftClick` nor `DragEnd` in the same
/// frame.
pub proof fn lemma_double_click_replaces(s: CursorState, f: CursorFrame, cands: Seq<CursorCandidate>, e: u64)
    ensures
        spec_mouse_button_input(s, f, cands).1.contains(CursorEffect::Action(e, EventFlags(DOUBLE_CLICK_BIT))) ==> {
            &&& f.double_click_in_time
            &&& spec_mouse_button_input(s, f, cands).0.last_lmb_down_time == (0u32, 0u32)
            &&& !spec_mouse_button_input(s, f, cands).1.contains(CursorEffect::Action(e, EventFlags(LEFT_CLICK_BIT)))
            &&& !spec_mouse_button_input(s, f, cands).1.contains(CursorEffect::Action(e, EventFlags(DRAG_END_BIT)))
        },
{
    let dbl = CursorEffect::Action(e, EventFlags(DOUBLE_CLICK_BIT));
    let lc = CursorEffect::Action(e, EventFlags(LEFT_CLICK_BIT));
    let de = CursorEffect::Action(e, EventFlags(DRAG_END_BIT));
    let out = spec_mouse_button_input(s, f, cands);
    let fx = out.1;
    lemma_outside_effects(cands, None);
    if fx.contains(dbl) && !(s.blocked || f.mouse_pos is None) {
        let i = choose|i: int| 0 <= i < fx.len() && fx[i] == dbl;
        let mouse = f.mouse_pos.unwrap();
        let s1 = CursorState { cursor_pos: mouse, catched: false, ..s };
        if s.dragging {
            if s.drag_target is Some && f.drag_target_exists && !spec_pressed(f, s.drag_button) {
                let e0 = s.drag_target.unwrap();
                lemma_outside_effects(cands, Some(e0));
                let drop = match spec_top(cands, EventFlags(DROP_BIT), false) {
                    Some(t) => seq![CursorEffect::Action(cands[t].entity, EventFlags(DROP_BIT))],
                    None => Seq::<CursorEffect>::empty(),
                };
                let outside = spec_outside_effects(cands, Some(e0));
                let end = fx[0];
                assert(fx =~= seq![end] + drop + outside);
                assert forall|j: int| 1 <= j < fx.len() implies fx[j] != dbl && fx[j] != lc && fx[j] != de by {
                    if j < 1 + drop.len() {
                        assert(fx[j] == drop[j - 1]);
                    } else {
                        assert(fx[j] == outside[j - 1 - drop.len()]);
                    }
                }
                assert(i == 0);
            } else if s.drag_target is Some && f.drag_target_exists {
                let down = spec_extra_down(f, s.drag_button, s.drag_target.unwrap());
                assert(fx.drop_last() =~= down);
                assert(fx[fx.len() - 1] is Focus);
                if i < fx.len() - 1 {
                    assert(fx[i] == down[i]);
                }
            } else if !spec_pressed(f, s.drag_button) {
                assert(fx == spec_outside_effects(cands, None));
            }
        } else if spec_pressed(f, MouseButton::Left) || spec_pressed(f, MouseButton::Right)
            || spec_pressed(f, MouseButton::Middle) {
            let b = if spec_pressed(f, MouseButton::Left) {
                MouseButton::Left
            } else if spec_pressed(f, MouseButton::Right) {
                MouseButton::Right
            } else {
                MouseButton::Middle
            };
            assert(fx == spec_press_frame(s1, f, cands, b, mouse).1);
        } else {
            let released = spec_released_button(f);
            let outside = spec_outside_effects(cands, None);
            match released {
                Some(b) => {
                    let click = spec_click_release(s1, f, cands, b);
                    let pre = click.1 + outside;
                    assert(fx.len() == pre.len() || fx.drop_last() =~= pre);
                    assert forall|j: int| 0 <= j < fx.len() && j >= click.1.len() implies fx[j] != dbl && fx[j] != lc && fx[j] != de by {
                        if j < pre.len() {
                            assert(fx[j] == pre[j]);
                            assert(pre[j] == outside[j - click.1.len()]);
                        }
                    }
                    assert(i < click.1.len());
                    assert(fx[i] == click.1[i]);
                    assert(click.1.len() == 1);
                    assert(fx[0] == dbl);
                    assert(b == MouseButton::Left);
                },
                None => {
                    assert(fx.len() <= 1);
                },
            }
        }
    }
}

/// The listener flag an effect is for: `Hover` for hover focus, `Drop` for a
/// drop action.
pub open spec fn spec_listened_bit(x: CursorEffect) -> Option<u32> {
    match x {
        CursorEffect::Focus(_, fl) => if fl == EventFlags(HOVER_BIT) { Some(HOVER_BIT) } else { None },
        CursorEffect::Action(_, fl) => if fl == EventFlags(DROP_BIT) { Some(DROP_BIT) } else { None },
        CursorEffect::ClickOutside(_) => None,
    }
}

/// `Hover` and `Drop` go only to their listeners: an entity that receives hover
/// focus or a drop action is an active candidate under the cursor that listens
/// for it.
pub proof fn lemma_hover_and_drop_listeners(s: CursorState, f: CursorFrame, cands: Seq<CursorCandidate>)
    ensures
        forall|i: int| 0 <= i < spec_mouse_button_input(s, f, cands).1.len()
            && (#[trigger] spec_listened_bit(spec_mouse_button_input(s, f, cands).1[i])) is Some
            ==> exists|j: int| 0 <= j < cands.len()
                && cands[j].entity == spec_effect_entity(spec_mouse_button_input(s, f, cands).1[i])
                && spec_eligible(#[trigger] cands[j],
                    EventFlags(spec_listened_bit(spec_mouse_button_input(s, f, cands).1[i]).unwrap()), false),
{
    let fx = spec_mouse_button_input(s, f, cands).1;
    lemma_outside_effects(cands, None);
    if s.drag_target is Some {
        lemma_outside_effects(cands, Some(s.drag_target.unwrap()));
    }
    lemma_top_some(cands, EventFlags(HOVER_BIT), false);
    lemma_top_some(cands, EventFlags(DROP_BIT), false);
    assert forall|i: int| 0 <= i < fx.len() && (#[trigger] spec_listened_bit(fx[i])) is Some implies exists|j: int|
        0 <= j < cands.len() && cands[j].entity == spec_effect_entity(fx[i])
            && spec_eligible(#[trigger] cands[j], EventFlags(spec_listened_bit(fx[i]).unwrap()), false) by {
        let mouse = f.mouse_pos.unwrap();
        let s1 = CursorState { cursor_pos: mouse, catched: false, ..s };
        if s.dragging {
            assert(fx == spec_drag_frame(s1, f, cands).1);
            if s.drag_target is Some && f.drag_target_exists && !spec_pressed(f, s.drag_button) {
                let e = s.drag_target.unwrap();
                let drop = match spec_top(cands, EventFlags(DROP_BIT), false) {
                    Some(t) => seq![CursorEffect::Action(cands[t].entity, EventFlags(DROP_BIT))],
                    None => Seq::<CursorEffect>::empty(),
                };
                let pre = seq![fx[0]] + drop;
                assert(fx =~= pre + spec_outside_effects(cands, Some(e)));
                if i >= pre.len() {
                    assert(fx[i] == spec_outside_effects(cands, Some(e))[i - pre.len()]);
                } else if i >= 1 {
                    assert(fx[i] == drop[0]);
                    let t = spec_top(cands, EventFlags(DROP_BIT), false).unwrap();
                    assert(spec_eligible(cands[t], EventFlags(DROP_BIT), false));
                }
            } else if s.drag_target is Some && f.drag_target_exists {
                let down = spec_extra_down(f, s.drag_button, s.drag_target.unwrap());
                assert(fx.drop_last() =~= down);
                if i < fx.len() - 1 {
                    assert(fx[i] == down[i]);
                }
            } else if !spec_pressed(f, s.drag_button) {
                assert(fx[i] == spec_outside_effects(cands, None)[i]);
            }
        } else if spec_pressed(f, MouseButton::Left) || spec_pressed(f, MouseButton::Right)
            || spec_pressed(f, MouseButton::Middle) {
        } else {
            let released = spec_released_button(f);
            assert(fx == spec_release_frame(s1, f, cands).1);
            let pre = match released {
                Some(b) => spec_click_release(s1, f, cands, b).1 + spec_outside_effects(cands, None),
                None => Seq::<CursorEffect>::empty(),
            };
            if i < pre.len() {
                assert(fx[i] == pre[i]);
                match released {
                    Some(b) => {
                        let click = spec_click_release(s1, f, cands, b).1;
                        if i >= click.len() {
                            assert(pre[i] == spec_outside_effects(cands, None)[i - click.len()]);
                        }
                    },
                    None => {},
                }
            } else {
                let t = spec_top(cands, EventFlags(HOVER_BIT), false).unwrap();
                assert(spec_eligible(cands[t], EventFlags(HOVER_BIT), false));
            }
        }
    }
}

/// A candidate in front of all others that is eligible is the frontmost one.
proof fn lemma_top_strict(cands: Seq<CursorCandidate>, filter: EventFlags, need_down: bool, k: int)
    requires
        0 <= k < cands.len(),
        spec_eligible(cands[k], filter, need_down),
        forall|j: int| 0 <= j < cands.len() && j != k ==> spec_z_key(#[trigger] cands[j].z) < spec_z_key(cands[k].z),
    ensures
        spec_top(cands, filter, need_down) == Some(k),
{
    assert(spec_is_top(cands, filter, need_down, k));
    let t = choose|t: int| spec_is_top(cands, filter, need_down, t);
    lemma_top_unique(cands, filter, need_down, k, t);
}

/// The flags of `BlockAll` meet every filter the cursor system looks up
/// outside of a drag.
proof fn lemma_block_all_bits(x: u32)
    requires
        x & BLOCK_ALL_BITS == BLOCK_ALL_BITS,
    ensures
        x & (LEFT_DRAG_BIT | LEFT_CLICK_BIT) != 0,
        x & (RIGHT_DRAG_BIT | RIGHT_CLICK_BIT) != 0,
        x & (MID_DRAG_BIT | MID_CLICK_BIT) != 0,
        x & LEFT_CLICK_BIT != 0,
        x & RIGHT_CLICK_BIT != 0,
        x & MID_CLICK_BIT != 0,
        x & HOVER_BIT != 0,
{
    assert(x & 303650u32 == 303650u32 ==> x & (4u32 | 32u32) != 0) by (bit_vector);
    assert(x & 303650u32 == 303650u32 ==> x & (16384u32 | 8192u32) != 0) by (bit_vector);
    assert(x & 303650u32 == 303650u32 ==> x & (1024u32 | 512u32) != 0) by (bit_vector);
    assert(x & 303650u32 == 303650u32 ==> x & 32u32 != 0) by (bit_vector);
    assert(x & 303650u32 == 303650u32 ==> x & 8192u32 != 0) by (bit_vector);
    assert(x & 303650u32 == 303650u32 ==> x & 512u32 != 0) by (bit_vector);
    assert(x & 303650u32 == 303650u32 ==> x & 2u32 != 0) by (bit_vector);
}

/// `BlockAll` blocks all event listeners underneath: outside of a drag, when
/// the frontmost candidate listens for `BlockAll`, is active and lies under both
/// the cursor and the press position, every effect other than
/// `CursorClickOutside` goes to it.
pub proof fn lemma_block_all(s: CursorState, f: CursorFrame, cands: Seq<CursorCandidate>, k: int)
    requires
        !s.dragging,
        0 <= k < cands.len(),
        cands[k].active,
        cands[k].contains_cursor,
        cands[k].contains_down,
        cands[k].flags.spec_contains(EventFlags(BLOCK_ALL_BITS)),
        forall|j: int| 0 <= j < cands.len() && j != k ==> spec_z_key(#[trigger] cands[j].z) < spec_z_key(cands[k].z),
    ensures
        forall|i: int| 0 <= i < spec_mouse_button_input(s, f, cands).1.len()
            && !((#[trigger] spec_mouse_button_input(s, f, cands).1[i]) is ClickOutside)
            ==> spec_effect_entity(spec_mouse_button_input(s, f, cands).1[i]) == cands[k].entity,
{
    let fx = spec_mouse_button_input(s, f, cands).1;
    let c = cands[k];
    lemma_block_all_bits(c.flags.0);
    lemma_outside_effects(cands, None);
    lemma_top_strict(cands, EventFlags(LEFT_DRAG_BIT | LEFT_CLICK_BIT), false, k);
    lemma_top_strict(cands, EventFlags(RIGHT_DRAG_BIT | RIGHT_CLICK_BIT), false, k);
    lemma_top_strict(cands, EventFlags(MID_DRAG_BIT | MID_CLICK_BIT), false, k);
    lemma_top_strict(cands, EventFlags(LEFT_CLICK_BIT), true, k);
    lemma_top_strict(cands, EventFlags(RIGHT_CLICK_BIT), true, k);
    lemma_top_strict(cands, EventFlags(MID_CLICK_BIT), true, k);
    lemma_top_strict(cands, EventFlags(HOVER_BIT), false, k);
    assert forall|i: int| 0 <= i < fx.len() && !((#[trigger] fx[i]) is ClickOutside)
        implies spec_effect_entity(fx[i]) == c.entity by {
        let mouse = f.mouse_pos.unwrap();
        let s1 = CursorState { cursor_pos: mouse, catched: false, ..s };
        if spec_pressed(f, MouseButton::Left) || spec_pressed(f, MouseButton::Right)
            || spec_pressed(f, MouseButton::Middle) {
        } else {
            let released = spec_released_button(f);
            assert(fx == spec_release_frame(s1, f, cands).1);
            let pre = match released {
                Some(b) => spec_click_release(s1, f, cands, b).1 + spec_outside_effects(cands, None),
                None => Seq::<CursorEffect>::empty(),
            };
            if i < pre.len() {
                assert(fx[i] == pre[i]);
                match released {
                    Some(b) => {
                        let click = spec_click_release(s1, f, cands, b).1;
                        if i >= click.len() {
                            assert(pre[i] == spec_outside_effects(cands, None)[i - click.len()]);
                        }
                    },
                    None => {},
                }
            }
        }
    }
}

/// A press of left, right or middle, outside a drag, on the frontmost listener
/// for that button's click or drag, when the listener does not listen for that
/// button's drag, gives it exactly that button's `Down` action and that
/// button's pressed focus (`LeftPressed`, `RightPressed` or `MidPressed`); the
/// three pressed flags differ from each other.
pub proof fn lemma_press_focus(s: CursorState, f: CursorFrame, cands: Seq<CursorCandidate>, b: MouseButton, t: int)
    requires
        !s.blocked,
        f.mouse_pos is Some,
        !s.dragging,
        spec_held_button(f) == Some(b),
        crate::events::systems::spec_just_pressed(f, b),
        spec_top(cands, match b {
            MouseButton::Left => EventFlags(LEFT_DRAG_BIT | LEFT_CLICK_BIT),
            MouseButton::Right => EventFlags(RIGHT_DRAG_BIT | RIGHT_CLICK_BIT),
            _ => EventFlags(MID_DRAG_BIT | MID_CLICK_BIT),
        }, false) == Some(t),
        !cands[t].flags.spec_contains(match b {
            MouseButton::Left => EventFlags(LEFT_DRAG_BIT),
            MouseButton::Right => EventFlags(RIGHT_DRAG_BIT),
            _ => EventFlags(MID_DRAG_BIT),
        }),
    ensures
        spec_mouse_button_input(s, f, cands).1 == seq![
            CursorEffect::Action(cands[t].entity, match b {
                MouseButton::Left => EventFlags(LEFT_DOWN_BIT),
                MouseButton::Right => EventFlags(RIGHT_DOWN_BIT),
                _ => EventFlags(MID_DOWN_BIT),
            }),
            CursorEffect::Focus(cands[t].entity, match b {
                MouseButton::Left => EventFlags(LEFT_PRESSED_BIT),
                MouseButton::Right => EventFlags(RIGHT_PRESSED_BIT),
                _ => EventFlags(MID_PRESSED_BIT),
            }),
        ],
        LEFT_PRESSED_BIT != RIGHT_PRESSED_BIT && RIGHT_PRESSED_BIT != MID_PRESSED_BIT
            && LEFT_PRESSED_BIT != MID_PRESSED_BIT,
{
}

/// Every candidate that may receive `CursorClickOutside` does.
proof fn lemma_outside_complete(cands: Seq<CursorCandidate>, exclude: Option<u64>, j: int)
    requires
        0 <= j < cands.len(),
        cands[j].active,
        cands[j].flags.spec_intersects(EventFlags(CLICK_OUTSIDE_BIT)),
        !cands[j].contains_cursor,
        exclude matches Some(e) ==> cands[j].entity != e,
    ensures
        exists|i: int| 0 <= i < spec_outside_effects(cands, exclude).len()
            && spec_outside_effects(cands, exclude)[i] == CursorEffect::ClickOutside(cands[j].entity),
    decreases cands.len(),
{
    let prev = cands.drop_last();
    let fx = spec_outside_effects(cands, exclude);
    if j == cands.len() - 1 {
        assert(cands.last() == cands[j]);
        assert(fx[fx.len() - 1] == CursorEffect::ClickOutside(cands[j].entity));
    } else {
        assert(prev[j] == cands[j]);
        lemma_outside_complete(prev, exclude, j);
        let pfx = spec_outside_effects(prev, exclude);
        let i = choose|i: int| 0 <= i < pfx.len() && pfx[i] == CursorEffect::ClickOutside(cands[j].entity);
        assert(fx[i] == pfx[i]);
    }
}

/// `CursorClickOutside` reaches every listener the cursor is outside of: when a
/// button is released outside a drag, every active `ClickOutside` listener not
/// under the cursor receives it; when a drag ends, every such listener but the
/// dragged entity does.
pub proof fn lemma_click_outside_complete(s: CursorState, f: CursorFrame, cands: Seq<CursorCandidate>, j: int)
    requires
        !s.blocked,
        f.mouse_pos is Some,
        0 <= j < cands.len(),
        cands[j].active,
        cands[j].flags.spec_intersects(EventFlags(CLICK_OUTSIDE_BIT)),
        !cands[j].contains_cursor,
        if s.dragging {
            s.drag_target is Some && f.drag_target_exists && !spec_pressed(f, s.drag_button)
                && cands[j].entity != s.drag_target.unwrap()
        } else {
            spec_held_button(f) is None && spec_released_button(f) is Some
        },
    ensures
        spec_mouse_button_input(s, f, cands).1.contains(CursorEffect::ClickOutside(cands[j].entity)),
{
    let fx = spec_mouse_button_input(s, f, cands).1;
    let x = CursorEffect::ClickOutside(cands[j].entity);
    let mouse = f.mouse_pos.unwrap();
    let s1 = CursorState { cursor_pos: mouse, catched: false, ..s };
    if s.dragging {
        let e = s.drag_target.unwrap();
        lemma_outside_complete(cands, Some(e), j);
        let outside = spec_outside_effects(cands, Some(e));
        let drop = match spec_top(cands, EventFlags(DROP_BIT), false) {
            Some(t) => seq![CursorEffect::Action(cands[t].entity, EventFlags(DROP_BIT))],
            None => Seq::<CursorEffect>::empty(),
        };
        let pre = seq![fx[0]] + drop;
        assert(fx =~= pre + outside);
        let i = choose|i: int| 0 <= i < outside.len() && outside[i] == x;
        assert(fx[pre.len() + i] == x);
    } else {
        lemma_outside_complete(cands, None, j);
        let b = spec_released_button(f).unwrap();
        let click = spec_click_release(s1, f, cands, b).1;
        let outside = spec_outside_effects(cands, None);
        let pre = click + outside;
        assert(fx == spec_release_frame(s1, f, cands).1);
        let i = choose|i: int| 0 <= i < outside.len() && outside[i] == x;
        assert(pre[click.len() + i] == x);
        assert(fx[click.len() + i] == x);
    }
}

/// `DoubleClick` goes only to double click listeners: an entity that receives
/// it is a candidate listening for `DoubleClick` under the cursor and the press
/// position, or the target of a drag that started on a double click listener;
/// and a drag remembers a double click only for a target listening for it.
pub proof fn lemma_double_click_listeners(s: CursorState, f: CursorFrame, cands: Seq<CursorCandidate>, e: u64)
    ensures
        spec_mouse_button_input(s, f, cands).1.contains(CursorEffect::Action(e, EventFlags(DOUBLE_CLICK_BIT))) ==> {
            ||| exists|j: int| 0 <= j < cands.len() && cands[j].entity == e
                && (#[trigger] cands[j]).flags.spec_contains(EventFlags(DOUBLE_CLICK_BIT))
                && cands[j].contains_cursor && cands[j].contains_down
            ||| s.dragging && s.drag_dbl_click && s.drag_target == Some(e)
        },
        !s.dragging && spec_mouse_button_input(s, f, cands).0.drag_dbl_click && !s.drag_dbl_click ==>
            exists|j: int| 0 <= j < cands.len()
                && Some(cands[j].entity) == spec_mouse_button_input(s, f, cands).0.drag_target
                && (#[trigger] cands[j]).flags.spec_contains(EventFlags(DOUBLE_CLICK_BIT)),
{
    let dbl = CursorEffect::Action(e, EventFlags(DOUBLE_CLICK_BIT));
    let out = spec_mouse_button_input(s, f, cands);
    let fx = out.1;
    lemma_outside_effects(cands, None);
    lemma_top_some(cands, EventFlags(LEFT_DRAG_BIT | LEFT_CLICK_BIT), false);
    lemma_top_some(cands, EventFlags(LEFT_CLICK_BIT), true);
    if !(s.blocked || f.mouse_pos is None) {
        let mouse = f.mouse_pos.unwrap();
        let s1 = CursorState { cursor_pos: mouse, catched: false, ..s };
        if fx.contains(dbl) {
            let i = choose|i: int| 0 <= i < fx.len() && fx[i] == dbl;
            if s.dragging {
                if s.drag_target is Some && f.drag_target_exists && !spec_pressed(f, s.drag_button) {
                    let e0 = s.drag_target.unwrap();
                    lemma_outside_effects(cands, Some(e0));
                    let drop = match spec_top(cands, EventFlags(DROP_BIT), false) {
                        Some(t) => seq![CursorEffect::Action(cands[t].entity, EventFlags(DROP_BIT))],
                        None => Seq::<CursorEffect>::empty(),
                    };
                    let outside = spec_outside_effects(cands, Some(e0));
                    assert(fx =~= seq![fx[0]] + drop + outside);
                    if i >= 1 {
                        if i < 1 + drop.len() {
                            assert(fx[i] == drop[i - 1]);
                        } else {
                            assert(fx[i] == outside[i - 1 - drop.len()]);
                        }
                    }
                } else if s.drag_target is Some && f.drag_target_exists {
                    let down = spec_extra_down(f, s.drag_button, s.drag_target.unwrap());
                    assert(fx.drop_last() =~= down);
                    if i < fx.len() - 1 {
                        assert(fx[i] == down[i]);
                    }
                } else if !spec_pressed(f, s.drag_button) {
                    assert(fx[i] == spec_outside_effects(cands, None)[i]);
                }
            } else if spec_pressed(f, MouseButton::Left) || spec_pressed(f, MouseButton::Right)
                || spec_pressed(f, MouseButton::Middle) {
            } else {
                let released = spec_released_button(f);
                let outside = spec_outside_effects(cands, None);
                match released {
                    Some(b) => {
                        let click = spec_click_release(s1, f, cands, b).1;
                        let pre = click + outside;
                        assert(fx.len() == pre.len() || fx.drop_last() =~= pre);
                        if i < click.len() {
                            assert(fx[i] == click[i]);
                            let t = spec_top(cands, EventFlags(spec_button_bits(b).1), true).unwrap();
                            lemma_top_some(cands, EventFlags(spec_button_bits(b).1), true);
                            assert(cands[t].entity == e);
                        } else if i < pre.len() {
                            assert(fx[i] == pre[i]);
                            assert(pre[i] == outside[i - click.len()]);
                        }
                    },
                    None => {},
                }
            }
        }
        if !s.dragging && out.0.drag_dbl_click && !s.drag_dbl_click {
            let t = spec_top(cands, EventFlags(LEFT_DRAG_BIT | LEFT_CLICK_BIT), false).unwrap();
            assert(out.0.drag_target == Some(cands[t].entity));
        }
    }
}

/// A left release on a plain click listener gives it `LeftClick`, however soon
/// after the previous press: outside a drag, when the frontmost `LeftClick`
/// listener under the cursor and the press position does not listen for
/// `DoubleClick`, it receives `LeftClick`, and the double click timer stays.
pub proof fn lemma_plain_click(s: CursorState, f: CursorFrame, cands: Seq<CursorCandidate>, t: int)
    requires
        !s.blocked,
        f.mouse_pos is Some,
        !s.dragging,
        spec_held_button(f) is None,
        crate::events::systems::spec_just_released(f, MouseButton::Left),
        spec_top(cands, EventFlags(LEFT_CLICK_BIT), true) == Some(t),
        !cands[t].flags.spec_contains(EventFlags(DOUBLE_CLICK_BIT)),
    ensures
        spec_mouse_button_input(s, f, cands).1[0] == CursorEffect::Action(cands[t].entity, EventFlags(LEFT_CLICK_BIT)),
        spec_mouse_button_input(s, f, cands).0.last_lmb_down_time == s.last_lmb_down_time,
{
}

} // verus!
