//! The DSL's vocabulary: unified spatial constants, helper value types and
//! the documented intrinsic fields.
use vstd::prelude::*;

pub mod util;
pub mod intrinsics;
