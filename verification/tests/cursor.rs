use aoui::events::cursor::{CursorState, MouseButton, MouseInput, Vec2Bits, TrackCursor};
use aoui::events::flags::EventFlags;
use aoui::events::systems::{
    mouse_button_input, mousewheel_target, top_candidate, z_key, CursorCandidate, CursorEffect, CursorFrame,
};
use aoui::units::Size2;

fn pos(x: f32, y: f32) -> Vec2Bits {
    Vec2Bits { x: x.to_bits(), y: y.to_bits() }
}

fn cand(entity: u64, flags: EventFlags, z: f32, inside: bool, down_inside: bool) -> CursorCandidate {
    CursorCandidate { entity, flags, active: true, contains_cursor: inside, contains_down: down_inside, z: z.to_bits() }
}

fn frame(pressed: Vec<MouseButton>, just_pressed: Vec<MouseButton>, just_released: Vec<MouseButton>) -> CursorFrame {
    CursorFrame {
        mouse_pos: Some(pos(10.0, 20.0)),
        now: 5.0f32.to_bits(),
        double_click_in_time: false,
        drag_target_exists: true,
        buttons: MouseInput { pressed, just_pressed, just_released },
    }
}

#[test]
fn blocked_system_only_clears_catched() {
    let mut state = CursorState::default();
    state.catched = true;
    state.block();
    assert!(state.blocked);
    let f = frame(vec![MouseButton::Left], vec![MouseButton::Left], vec![]);
    let cands = vec![cand(1, EventFlags::LeftClick(), 0.0, true, true)];
    let fx = mouse_button_input(&mut state, &f, &cands);
    assert!(fx.is_empty());
    assert!(!state.catched);
    assert_eq!(state.cursor_pos, pos(0.0, 0.0));
}

#[test]
fn no_cursor_position_does_nothing() {
    let mut state = CursorState::default();
    let mut f = frame(vec![], vec![], vec![]);
    f.mouse_pos = None;
    let cands = vec![cand(1, EventFlags::Hover(), 0.0, true, true)];
    assert!(mouse_button_input(&mut state, &f, &cands).is_empty());
    assert!(!state.catched);
}

#[test]
fn hover_goes_to_the_frontmost_sprite() {
    let mut state = CursorState::default();
    let f = frame(vec![], vec![], vec![]);
    let cands = vec![
        cand(1, EventFlags::Hover(), 1.0, true, false),
        cand(2, EventFlags::Hover(), 3.0, true, false),
        cand(3, EventFlags::Hover(), 9.0, false, false),
        cand(4, EventFlags::LeftClick(), 8.0, true, false),
    ];
    let fx = mouse_button_input(&mut state, &f, &cands);
    assert_eq!(fx, vec![CursorEffect::Focus(2, EventFlags::Hover())]);
    assert!(state.catched);
    assert_eq!(state.cursor_pos, pos(10.0, 20.0));
}

#[test]
fn equal_depth_picks_the_last_candidate() {
    let cands = vec![
        cand(1, EventFlags::Hover(), 2.0, true, false),
        cand(2, EventFlags::Hover(), 2.0, true, false),
        cand(3, EventFlags::Hover(), -1.0, true, false),
    ];
    assert_eq!(top_candidate(&cands, EventFlags::Hover(), false), Some(1));
    assert_eq!(top_candidate(&cands, EventFlags::Drop(), false), None);
}

#[test]
fn inactive_sprites_are_ignored() {
    let mut c = cand(1, EventFlags::Hover(), 5.0, true, true);
    c.active = false;
    let cands = vec![c, cand(2, EventFlags::Hover(), 1.0, true, true)];
    assert_eq!(top_candidate(&cands, EventFlags::Hover(), false), Some(1));
}

#[test]
fn z_key_orders_like_total_cmp() {
    let values = [f32::NEG_INFINITY, -2.0, -1.0, -0.0, 0.0, 1.0, 2.0, f32::INFINITY];
    for w in values.windows(2) {
        assert!(z_key(w[0].to_bits()) < z_key(w[1].to_bits()), "{} < {}", w[0], w[1]);
        assert_eq!(w[0].total_cmp(&w[1]), z_key(w[0].to_bits()).cmp(&z_key(w[1].to_bits())));
    }
    assert_eq!(z_key(0), 0);
    assert_eq!(z_key(0x8000_0000), -1);
    assert_eq!(z_key(1.0f32.to_bits()), 0x3f80_0000);
}

#[test]
fn left_press_on_drag_listener_starts_a_drag() {
    let mut state = CursorState::default();
    state.last_lmb_down_time = (1, 2);
    let f = frame(vec![MouseButton::Left], vec![MouseButton::Left], vec![]);
    let flags = EventFlags::LeftDrag().const_or(EventFlags::DoubleClick());
    let cands = vec![cand(7, flags, 0.0, true, false)];
    let fx = mouse_button_input(&mut state, &f, &cands);
    assert_eq!(fx, vec![
        CursorEffect::Action(7, EventFlags::LeftDown()),
        CursorEffect::Focus(7, EventFlags::LeftDrag()),
    ]);
    assert!(state.dragging);
    assert!(state.catched);
    assert_eq!(state.drag_target, Some(7));
    assert_eq!(state.drag_button, MouseButton::Left);
    assert!(state.drag_dbl_click);
    assert_eq!(state.down_pos, pos(10.0, 20.0));
    assert_eq!(state.last_lmb_down_time, (2, 5.0f32.to_bits()));
}

#[test]
fn right_drag_runs_from_press_to_drag_end() {
    let mut state = CursorState::default();
    let f = frame(vec![MouseButton::Right], vec![MouseButton::Right], vec![]);
    let cands = vec![cand(3, EventFlags::RightDrag(), 0.0, true, false)];
    let fx = mouse_button_input(&mut state, &f, &cands);
    assert_eq!(fx, vec![
        CursorEffect::Action(3, EventFlags::RightDown()),
        CursorEffect::Focus(3, EventFlags::RightDrag()),
    ]);
    assert!(state.dragging);
    assert_eq!(state.drag_target, Some(3));
    assert_eq!(state.drag_button, MouseButton::Right);
    assert!(!state.drag_dbl_click);
    assert_eq!(state.last_lmb_down_time, (0, 0));

    let held = frame(vec![MouseButton::Right], vec![], vec![]);
    let fx = mouse_button_input(&mut state, &held, &cands);
    assert_eq!(fx, vec![CursorEffect::Focus(3, EventFlags::RightDrag())]);
    assert!(state.dragging);

    let up = frame(vec![], vec![], vec![MouseButton::Right]);
    let fx = mouse_button_input(&mut state, &up, &cands);
    assert_eq!(fx, vec![CursorEffect::Action(3, EventFlags::DragEnd())]);
    assert!(!state.dragging);
    assert_eq!(state.drag_target, None);
}

#[test]
fn click_listener_is_pressed_while_held() {
    let mut state = CursorState::default();
    let f = frame(vec![MouseButton::Middle], vec![MouseButton::Middle], vec![]);
    let cands = vec![cand(4, EventFlags::MidClick(), 0.0, true, false)];
    let fx = mouse_button_input(&mut state, &f, &cands);
    assert_eq!(fx, vec![
        CursorEffect::Action(4, EventFlags::MidDown()),
        CursorEffect::Focus(4, EventFlags::MidPressed()),
    ]);
    let held = frame(vec![MouseButton::Middle], vec![], vec![]);
    let fx = mouse_button_input(&mut state, &held, &cands);
    assert_eq!(fx, vec![CursorEffect::Focus(4, EventFlags::MidPressed())]);
    assert!(state.catched);
}

#[test]
fn press_outside_every_listener_is_not_catched() {
    let mut state = CursorState::default();
    let f = frame(vec![MouseButton::Left], vec![MouseButton::Left], vec![]);
    let cands = vec![cand(4, EventFlags::LeftClick(), 0.0, false, false)];
    assert!(mouse_button_input(&mut state, &f, &cands).is_empty());
    assert!(!state.catched);
    assert_eq!(state.down_pos, pos(10.0, 20.0));
}

#[test]
fn click_requires_press_and_release_inside() {
    let mut state = CursorState::default();
    let f = frame(vec![], vec![], vec![MouseButton::Left]);
    let cands = vec![
        cand(1, EventFlags::LeftClick(), 5.0, true, false),
        cand(2, EventFlags::LeftClick(), 1.0, true, true),
        cand(3, EventFlags::ClickOutside(), 0.0, false, false),
        cand(4, EventFlags::ClickOutside(), 0.0, true, false),
    ];
    let fx = mouse_button_input(&mut state, &f, &cands);
    assert_eq!(fx, vec![
        CursorEffect::Action(2, EventFlags::LeftClick()),
        CursorEffect::ClickOutside(3),
    ]);
    assert!(state.catched);
}

#[test]
fn double_click_within_time_replaces_click() {
    let mut state = CursorState::default();
    state.last_lmb_down_time = (3, 4);
    let mut f = frame(vec![], vec![], vec![MouseButton::Left]);
    f.double_click_in_time = true;
    let flags = EventFlags::LeftClick().const_or(EventFlags::DoubleClick());
    let cands = vec![cand(9, flags, 0.0, true, true)];
    let fx = mouse_button_input(&mut state, &f, &cands);
    assert_eq!(fx, vec![CursorEffect::Action(9, EventFlags::DoubleClick())]);
    assert_eq!(state.last_lmb_down_time, (0, 0));

    let mut late = frame(vec![], vec![], vec![MouseButton::Left]);
    late.double_click_in_time = false;
    let fx = mouse_button_input(&mut state, &late, &cands);
    assert_eq!(fx, vec![CursorEffect::Action(9, EventFlags::LeftClick())]);
}

#[test]
fn right_release_then_hover() {
    let mut state = CursorState::default();
    let f = frame(vec![], vec![], vec![MouseButton::Right]);
    let cands = vec![
        cand(1, EventFlags::RightClick().const_or(EventFlags::Hover()), 0.0, true, true),
    ];
    let fx = mouse_button_input(&mut state, &f, &cands);
    assert_eq!(fx, vec![
        CursorEffect::Action(1, EventFlags::RightClick()),
        CursorEffect::Focus(1, EventFlags::Hover()),
    ]);
}

#[test]
fn drag_end_drops_and_clicks_outside() {
    let mut state = CursorState::default();
    state.dragging = true;
    state.drag_target = Some(5);
    state.drag_button = MouseButton::Left;
    state.drag_dbl_click = false;
    let f = frame(vec![], vec![], vec![MouseButton::Left]);
    let cands = vec![
        cand(5, EventFlags::LeftDrag().const_or(EventFlags::ClickOutside()), 9.0, false, false),
        cand(6, EventFlags::Drop(), 1.0, true, false),
        cand(8, EventFlags::ClickOutside(), 0.0, false, false),
    ];
    let fx = mouse_button_input(&mut state, &f, &cands);
    assert_eq!(fx, vec![
        CursorEffect::Action(5, EventFlags::DragEnd()),
        CursorEffect::Action(6, EventFlags::Drop()),
        CursorEffect::ClickOutside(8),
    ]);
    assert!(!state.dragging);
    assert_eq!(state.drag_target, None);
    assert!(state.catched);
}

#[test]
fn drag_end_within_double_click_time() {
    let mut state = CursorState::default();
    state.dragging = true;
    state.drag_target = Some(5);
    state.drag_dbl_click = true;
    state.last_lmb_down_time = (1, 1);
    let mut f = frame(vec![], vec![], vec![MouseButton::Left]);
    f.double_click_in_time = true;
    let fx = mouse_button_input(&mut state, &f, &vec![]);
    assert_eq!(fx, vec![CursorEffect::Action(5, EventFlags::DoubleClick())]);
    assert_eq!(state.last_lmb_down_time, (0, 0));
}

#[test]
fn dragged_sprite_receives_other_buttons_down() {
    let mut state = CursorState::default();
    state.dragging = true;
    state.drag_target = Some(5);
    state.drag_button = MouseButton::Left;
    let f = frame(vec![MouseButton::Left, MouseButton::Right], vec![MouseButton::Right], vec![]);
    let fx = mouse_button_input(&mut state, &f, &vec![]);
    assert_eq!(fx, vec![
        CursorEffect::Action(5, EventFlags::RightDown()),
        CursorEffect::Focus(5, EventFlags::LeftDrag()),
    ]);
    assert!(state.dragging);
}

#[test]
fn drag_with_vanished_target_ends_on_release() {
    let mut state = CursorState::default();
    state.dragging = true;
    state.drag_target = Some(5);
    let mut f = frame(vec![], vec![], vec![MouseButton::Left]);
    f.drag_target_exists = false;
    let cands = vec![cand(5, EventFlags::ClickOutside(), 0.0, false, false)];
    let fx = mouse_button_input(&mut state, &f, &cands);
    assert_eq!(fx, vec![CursorEffect::ClickOutside(5)]);
    assert!(!state.dragging);
    assert!(state.catched);

    let mut held = CursorState::default();
    held.dragging = true;
    held.drag_target = Some(5);
    let mut g = frame(vec![MouseButton::Left], vec![], vec![]);
    g.drag_target_exists = false;
    assert!(mouse_button_input(&mut held, &g, &cands).is_empty());
    assert!(held.dragging);
}

#[test]
fn state_mutators() {
    let mut state = CursorState::default();
    state.last_lmb_down_time = (7, 8);
    state.dragging = true;
    state.drag_target = Some(1);
    state.block();
    assert!(!state.blocked);
    assert_eq!(state.last_lmb_down_time, (7, 8));
    state.cancel_drag();
    assert_eq!(state.drag_target(), None);
    assert!(state.dragging());
    state.block_force();
    assert!(state.blocked);
    assert!(!state.dragging());
    assert_eq!(state.last_lmb_down_time, (0, 0));
    state.last_lmb_down_time = (7, 8);
    state.clear_dbl_click();
    assert_eq!(state.last_lmb_down_time, (0, 0));
    assert_eq!(state.drag_button(), MouseButton::Left);
    assert!(!state.catched());
    assert_eq!(state.down_position(), pos(0.0, 0.0));
    assert_eq!(state.up_position(), pos(0.0, 0.0));
    assert_eq!(state.cursor_position(), pos(0.0, 0.0));
}

#[test]
fn mouse_input_queries() {
    let input = MouseInput {
        pressed: vec![MouseButton::Other(4)],
        just_pressed: vec![MouseButton::Right],
        just_released: vec![],
    };
    assert!(input.pressed(MouseButton::Other(4)));
    assert!(!input.pressed(MouseButton::Other(5)));
    assert!(input.just_pressed(MouseButton::Right));
    assert!(!input.just_released(MouseButton::Right));
}

#[test]
fn mousewheel_goes_to_frontmost_listener() {
    let cands = vec![
        cand(1, EventFlags::MouseWheel(), 1.0, true, false),
        cand(2, EventFlags::MouseWheel(), 4.0, true, false),
        cand(3, EventFlags::Hover(), 8.0, true, false),
    ];
    assert_eq!(mousewheel_target(&cands), Some(2));
    assert_eq!(mousewheel_target(&vec![]), None);
}

#[test]
fn track_cursor_offset() {
    assert_eq!(TrackCursor::DEFAULT().0, Size2::ZERO());
    let off = Size2::pixels(3.0f32.to_bits(), 4.0f32.to_bits());
    assert_eq!(TrackCursor::offset(off).0, off);
}

#[test]
fn block_all_catches_every_event_underneath() {
    let cands = vec![
        cand(1, EventFlags::LeftDrag().const_or(EventFlags::Hover()), 1.0, true, true),
        cand(2, EventFlags::BlockAll(), 2.0, true, true),
        cand(3, EventFlags::ClickOutside(), 0.0, false, false),
    ];
    let mut state = CursorState::default();
    let press = frame(vec![MouseButton::Left], vec![MouseButton::Left], vec![]);
    let fx = mouse_button_input(&mut state, &press, &cands);
    assert_eq!(fx, vec![
        CursorEffect::Action(2, EventFlags::LeftDown()),
        CursorEffect::Focus(2, EventFlags::LeftPressed()),
    ]);
    assert!(!state.dragging);
    let release = frame(vec![], vec![], vec![MouseButton::Left]);
    let fx = mouse_button_input(&mut state, &release, &cands);
    assert_eq!(fx, vec![
        CursorEffect::Action(2, EventFlags::LeftClick()),
        CursorEffect::ClickOutside(3),
        CursorEffect::Focus(2, EventFlags::Hover()),
    ]);
}

#[test]
fn middle_drag_receives_left_down() {
    let mut state = CursorState::default();
    let cands = vec![cand(7, EventFlags::MidDrag(), 0.0, true, false)];
    let press = frame(vec![MouseButton::Middle], vec![MouseButton::Middle], vec![]);
    mouse_button_input(&mut state, &press, &cands);
    assert!(state.dragging);
    assert_eq!(state.drag_button, MouseButton::Middle);
    let both = frame(vec![MouseButton::Middle, MouseButton::Left], vec![MouseButton::Left], vec![]);
    let fx = mouse_button_input(&mut state, &both, &cands);
    assert_eq!(fx, vec![
        CursorEffect::Action(7, EventFlags::LeftDown()),
        CursorEffect::Focus(7, EventFlags::MidDrag()),
    ]);
}
