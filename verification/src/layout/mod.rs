//! Layout vocabulary: axes, directions, alignments and layout controls.
use vstd::prelude::*;

pub mod util;

pub use util::{Axis, LayoutDir, Alignment, Trinary};
pub mod direction;
pub mod container;
pub mod layouts;
pub mod order;
