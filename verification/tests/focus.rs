use aoui::events::focus::{FocusStateMachine, StrongFocusStateMachine, FocusSignals, obtain_focus_detection};

#[test]
fn focus_follows_descendant_focus() {
    let mut s = FocusStateMachine::NoFocus;
    assert_eq!(s.step(true), Some(FocusSignals { change: true, obtained: true }));
    assert_eq!(s, FocusStateMachine::Focus);
    assert_eq!(s.step(true), None);
    assert_eq!(s.step(false), Some(FocusSignals { change: false, obtained: false }));
    assert_eq!(s.step(false), None);
}

#[test]
fn strong_focus_until_click_outside() {
    let mut s = StrongFocusStateMachine::NoFocus;
    assert_eq!(s.step(false, true, false), Some(FocusSignals { change: true, obtained: true }));
    assert_eq!(s, StrongFocusStateMachine::Weak);
    assert_eq!(s.step(false, true, true), Some(FocusSignals { change: true, obtained: true }));
    assert_eq!(s, StrongFocusStateMachine::Strong);
    assert_eq!(s.step(false, false, false), None);
    assert_eq!(s, StrongFocusStateMachine::Strong);
    assert_eq!(s.step(true, true, true), Some(FocusSignals { change: true, obtained: false }));
    assert_eq!(s, StrongFocusStateMachine::NoFocus);
    assert_eq!(s.step(false, false, true), None);
}

#[test]
fn obtain_focus_fires_once_per_focus() {
    let mut ctx = false;
    assert!(obtain_focus_detection(&mut ctx, true));
    assert!(!obtain_focus_detection(&mut ctx, true));
    assert!(!obtain_focus_detection(&mut ctx, false));
    assert!(!ctx);
    assert!(obtain_focus_detection(&mut ctx, true));
}
