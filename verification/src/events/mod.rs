//! Cursor events: event flags, the cursor state machine and focus tracking.
use vstd::prelude::*;

pub mod flags;

pub use flags::{EventFlags, CursorFocus, CursorAction, CursorClickOutside, DescendantHasFocus};
pub mod cursor;
pub mod systems;
pub mod laws;
pub mod focus;
pub mod signals;
