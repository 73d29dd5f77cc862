use aoui::events::flags::{EventFlags, CursorFocus, CursorAction, ALL_BITS, BLOCK_ALL_BITS};

#[test]
fn event_flags_contains_and_intersects() {
    let both = EventFlags::LeftDrag().const_or(EventFlags::LeftClick());
    assert!(both.contains(EventFlags::LeftDrag()));
    assert!(both.contains(EventFlags::LeftClick()));
    assert!(!both.contains(EventFlags::RightClick()));
    assert!(both.intersects(EventFlags::LeftClick().const_or(EventFlags::Drop())));
    assert!(!both.intersects(EventFlags::Drop()));
}

#[test]
fn event_flags_bits_follow_declaration_order() {
    assert_eq!(EventFlags::Idle().0, 1);
    assert_eq!(EventFlags::Hover().0, 2);
    assert_eq!(EventFlags::LeftClick().0, 1 << 5);
    assert_eq!(EventFlags::DoubleClick().0, 1 << 6);
    assert_eq!(EventFlags::MouseWheel().0, 1 << 18);
    assert_eq!(EventFlags::All().0, ALL_BITS);
    assert_eq!(EventFlags::all(), EventFlags::All());
    assert_eq!(ALL_BITS, (1 << 19) - 1);
}

#[test]
fn block_all_is_the_documented_union() {
    let union = EventFlags::Hover()
        .const_or(EventFlags::LeftClick())
        .const_or(EventFlags::MidClick())
        .const_or(EventFlags::RightClick())
        .const_or(EventFlags::Drop())
        .const_or(EventFlags::MouseWheel());
    assert_eq!(union, EventFlags::BlockAll());
    assert_eq!(union.0, BLOCK_ALL_BITS);
    assert!(EventFlags::All().contains(EventFlags::BlockAll()));
}

#[test]
fn bitor_matches_const_or() {
    let a = EventFlags::RightDrag() | EventFlags::RightClick();
    assert_eq!(a, EventFlags::RightDrag().const_or(EventFlags::RightClick()));
    assert_eq!(a.0, (1 << 14) | (1 << 13));
}

#[test]
fn empty_and_default() {
    let empty = EventFlags::default();
    assert!(empty.is_empty());
    assert!(!EventFlags::Idle().is_empty());
    assert!(EventFlags::Hover().contains(empty));
    assert!(!EventFlags::Hover().intersects(empty));
    assert!(!empty.contains(EventFlags::Hover()));
}

#[test]
fn set_laws_on_values() {
    let a = EventFlags::Hover().const_or(EventFlags::Drop());
    let b = EventFlags::Drop();
    let c = EventFlags::Drop().const_or(EventFlags::ClickOutside());
    assert!(a.contains(a));
    assert!(a.const_or(c).contains(a) && a.const_or(c).contains(c));
    assert_eq!(a.intersects(c), c.intersects(a));
    assert!(a.contains(b) && a.intersects(b));
    assert_eq!(a.const_or(c), c.const_or(a));
    assert!(a.equals(EventFlags::Drop().const_or(EventFlags::Hover())));
}

#[test]
fn focus_and_action_accessors() {
    let focus = CursorFocus(EventFlags::LeftPressed());
    assert_eq!(focus.flags(), EventFlags::LeftPressed());
    assert!(focus.is(EventFlags::LeftPressed()));
    assert!(!focus.is(EventFlags::LeftPressed().const_or(EventFlags::Hover())));
    assert!(focus.intersects(EventFlags::LeftPressed().const_or(EventFlags::Hover())));
    let action = CursorAction(EventFlags::DragEnd());
    assert_eq!(action.flags(), EventFlags::DragEnd());
    assert!(action.is(EventFlags::DragEnd()));
    assert!(!action.intersects(EventFlags::Drop()));
}
