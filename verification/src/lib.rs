//! Verified core of a bevy UI toolkit: layout directions and alignment,
//! cursor event flags and the cursor event state machine.
use vstd::prelude::*;

pub mod units;
pub mod dimension;
pub mod layout;
pub mod events;
pub mod flex;
pub mod anim;
pub mod dsl;
