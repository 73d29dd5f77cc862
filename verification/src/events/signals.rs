use vstd::prelude::*;
use std::marker::PhantomData;

verus! {

/// Keeps [`Fetch`] and [`Evaluated`] from being constructed outside the library.
#[derive(Debug, Clone, Copy)]
pub struct Sealed;

/// An event that fetches a piece of data through a channel.
///
/// Unlike normal events, these should not be registered and
/// can only send signals.
///
/// i.e. `Fetch<Dimension>`
///
/// Note this fetch the `raw` size if underlying value is a `Size2`,
/// use `Fetch<Evaluated<T>>` to get the evaluated pixel value.
#[derive(Debug)]
pub enum Fetch<T> {
    _Phantom(Sealed, PhantomData<T>),
}

/// Fetch evaluated pixel size instead of raw size.
///
/// i.e. `Fetch<Evaluated<Dimension>>`
#[derive(Debug)]
pub enum Evaluated<T> {
    _Phantom(Sealed, PhantomData<T>),
}

/// An signal sender that calculates how many pixels of the sprite's bounding
/// rectangle is covered by children's **offset** or **dimension**.
///
/// Only used as a signal id; it carries no data.
#[derive(Debug, Clone, Copy)]
pub struct CoveragePx;

/// An signal sender that calculates how many percentage of the sprite's bounding
/// rectangle is covered by children's **offset** or **dimension**.
///
/// Only used as a signal id; it carries no data.
#[derive(Debug, Clone, Copy)]
pub struct CoveragePercent;

/// Marks a sprite whose coverage by its children is calculated.
#[derive(Debug, Clone, Copy)]
pub struct CalculateDimensionCoverage;

/// An signal that calculates the sized of the sprite's bounding
/// rectangle of **offset** or **dimension**.
///
/// Only used as a signal id; it carries no data.
#[derive(Debug, Clone, Copy)]
pub struct GreaterBoundingBoxPx;

/// An signal that calculates the sized of the sprite's bounding
/// rectangle of **offset** or **dimension** in relation to the parent's dimension.
///
/// Only used as a signal id; it carries no data.
#[derive(Debug, Clone, Copy)]
pub struct GreaterBoundingBoxPercent;

} // verus!
