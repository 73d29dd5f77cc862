//! Vocabulary of the flex layouts: directions, stacking, alignment and controls.
use vstd::prelude::*;

pub mod util;
