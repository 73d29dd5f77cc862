use vstd::prelude::*;

verus! {

/// Tracks when this entity obtain and lose focus, operates signals
/// `ObtainedFocus`, `LoseFocus` and `FocusChange`.
#[derive(Debug, Clone, Copy, PartialEq, Eq, Structural)]
pub enum FocusStateMachine {
    NoFocus,
    Focus,
}

/// Tracks when this entity obtains and lose focus, operates signals
/// `ObtainedFocus`, `LoseFocus` and `FocusChange`.
///
/// Obtain `StrongFocus` when clicked, which can only be cancelled by clicking outside.
/// Requires `EventFlags` `ClickOutside`.
#[derive(Debug, Clone, Copy, PartialEq, Eq, Structural)]
pub enum StrongFocusStateMachine {
    NoFocus,
    Weak,
    Strong,
}

/// Signal for obtaining `DescendantHasFocus`.
///
/// Only used as a signal id; it carries no data.
#[derive(Debug, Clone, Copy, PartialEq, Eq)]
pub struct ObtainedFocus;

/// Signal for losing `DescendantHasFocus`.
///
/// Only used as a signal id; it carries no data.
#[derive(Debug, Clone, Copy, PartialEq, Eq)]
pub struct LoseFocus;

/// Signal for `DescendantHasFocus` being added or removed.
///
/// Only used as a signal id; it carries no data.
#[derive(Debug, Clone, Copy, PartialEq, Eq)]
pub struct FocusChange;

/// The signals sent when a focus state machine changes state: `FocusChange`
/// with `change`, then `ObtainedFocus` if `obtained`, else `LoseFocus`.
#[derive(Debug, Clone, Copy, PartialEq, Eq, Structural)]
pub struct FocusSignals {
    pub change: bool,
    pub obtained: bool,
}

impl FocusStateMachine {
    /// The state for whether a descendant has focus.
    pub open spec fn spec_target(has: bool) -> FocusStateMachine {
        if has { FocusStateMachine::Focus } else { FocusStateMachine::NoFocus }
    }

    /// Moves to the state for `has`; reports the signals to send if the state changed.
    pub fn step(&mut self, has: bool) -> (r: Option<FocusSignals>)
        ensures
            *final(self) == Self::spec_target(has),
            r == if *old(self) == Self::spec_target(has) {
                None
            } else {
                Some(FocusSignals { change: has, obtained: has })
            },
    {
        let new = if has { FocusStateMachine::Focus } else { FocusStateMachine::NoFocus };
        if *self != new {
            *self = new;
            Some(FocusSignals { change: has, obtained: has })
        } else {
            None
        }
    }
}

impl StrongFocusStateMachine {
    /// The next state: no focus after a click outside; strong focus while
    /// focused with a button held, and kept once strong; weak focus otherwise
    /// while focused.
    pub open spec fn spec_next(self, clicked_outside: bool, has: bool, any_pressed: bool) -> StrongFocusStateMachine {
        if clicked_outside {
            StrongFocusStateMachine::NoFocus
        } else if has && any_pressed || self == StrongFocusStateMachine::Strong {
            StrongFocusStateMachine::Strong
        } else if has {
            StrongFocusStateMachine::Weak
        } else {
            StrongFocusStateMachine::NoFocus
        }
    }

    /// Moves to the next state (`any_pressed`: left, middle or right is held);
    /// reports the signals to send if the state changed.
    pub fn step(&mut self, clicked_outside: bool, has: bool, any_pressed: bool) -> (r: Option<FocusSignals>)
        ensures
            *final(self) == old(self).spec_next(clicked_outside, has, any_pressed),
            r == if *old(self) == old(self).spec_next(clicked_outside, has, any_pressed) {
                None
            } else {
                Some(FocusSignals {
                    change: has,
                    obtained: old(self).spec_next(clicked_outside, has, any_pressed)
                        != StrongFocusStateMachine::NoFocus,
                })
            },
    {
        let new = if clicked_outside {
            StrongFocusStateMachine::NoFocus
        } else if has && any_pressed || *self == StrongFocusStateMachine::Strong {
            StrongFocusStateMachine::Strong
        } else if has {
            StrongFocusStateMachine::Weak
        } else {
            StrongFocusStateMachine::NoFocus
        };
        if *self != new {
            *self = new;
            Some(FocusSignals { change: has, obtained: new != StrongFocusStateMachine::NoFocus })
        } else {
            None
        }
    }
}

/// The focus state follows the input: it is `Focus` exactly when a descendant
/// has focus, and it changes (sending signals) exactly when it disagreed with
/// the input.
pub proof fn lemma_focus_settles(state: FocusStateMachine, has: bool)
    ensures
        (FocusStateMachine::spec_target(has) == FocusStateMachine::Focus) == has,
        (state != FocusStateMachine::spec_target(has)) == ((state == FocusStateMachine::Focus) != has),
{
}

/// Strong focus is obtained by a held button while focused and can only be
/// cancelled by a click outside; a click outside always ends focus.
pub proof fn lemma_strong_focus(state: StrongFocusStateMachine, clicked_outside: bool, has: bool, any_pressed: bool)
    ensures
        clicked_outside ==> state.spec_next(clicked_outside, has, any_pressed) == StrongFocusStateMachine::NoFocus,
        state == StrongFocusStateMachine::Strong && !clicked_outside
            ==> state.spec_next(clicked_outside, has, any_pressed) == StrongFocusStateMachine::Strong,
        state.spec_next(clicked_outside, has, any_pressed) == StrongFocusStateMachine::Strong
            ==> !clicked_outside && (has && any_pressed || state == StrongFocusStateMachine::Strong),
        state.spec_next(clicked_outside, has, any_pressed) != StrongFocusStateMachine::NoFocus
            ==> !clicked_outside && (has || state == StrongFocusStateMachine::Strong),
        state.spec_next(clicked_outside, has, any_pressed).spec_next(clicked_outside, has, any_pressed)
            == state.spec_next(clicked_outside, has, any_pressed),
{
}

/// Whether to run the obtain-focus handlers of an entity this frame, given
/// whether it has `CursorFocus`; `context` remembers that it already ran for
/// the current focus.
pub fn obtain_focus_detection(context: &mut bool, focused: bool) -> (fire: bool)
    ensures
        fire == (focused && !*old(context)),
        *final(context) == focused,
{
    if focused {
        if *context {
            return false;
        }
        *context = true;
        true
    } else {
        *context = false;
        false
    }
}

} // verus!
