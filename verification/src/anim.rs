//! Interpolation vocabulary: playback modes and the targets of interpolation.
use vstd::prelude::*;

verus! {

/// Sets whether the animation repeats or not.
#[derive(Debug, Clone, Copy, PartialEq, Eq, Structural)]
pub enum Playback {
    Once,
    Loop,
    Repeat,
}

impl Default for Playback {
    fn default() -> (r: Self)
        ensures
            r == Playback::Once,
    {
        Playback::Once
    }
}

impl Playback {
    pub fn is_once(&self) -> (r: bool)
        ensures
            r == (*self == Playback::Once),
    {
        *self == Playback::Once
    }
}

/// Interpolates the offset of a sprite.
///
/// Only used as a type; it carries no data.
#[derive(Debug)]
pub struct Offset;

/// Interpolates the rotation of a sprite.
///
/// Only used as a type; it carries no data.
#[derive(Debug)]
pub struct Rotation;

/// Interpolates the scale of a sprite.
///
/// Only used as a type; it carries no data.
#[derive(Debug)]
pub struct Scale;

/// Interpolates the index of an atlas sprite.
///
/// Only used as a type; it carries no data.
#[derive(Debug)]
pub struct Index;

/// System set for interpolation.
#[derive(Debug, Clone, Copy, Default, PartialEq, Eq, Hash)]
pub struct InterpolationSet;

/// System set for time update of interpolation.
#[derive(Debug, Clone, Copy, Default, PartialEq, Eq, Hash)]
pub struct InterpolationUpdateSet;

} // verus!
