use vstd::prelude::*;
use std::marker::PhantomData;
use crate::layout::util::{Trinary, spec_trinary_flip};

verus! {

/// Direction of a layout, as seen by the parts of layouting that do not measure.
///
/// `bucket` sorts an item by its anchor along the direction's axis; it takes the
/// anchor's side on the X axis and on the Y axis, in this order.
pub trait Direction: Sized {
    /// The unreversed direction along the same axis.
    type Pos;

    spec fn spec_reversed() -> bool;

    spec fn spec_bucket(sides: (Trinary, Trinary)) -> Trinary;

    fn reversed() -> (r: bool)
        ensures
            r == Self::spec_reversed(),
    ;

    fn bucket(sides: (Trinary, Trinary)) -> (r: Trinary)
        ensures
            r == Self::spec_bucket(sides),
    ;
}

/// A pair of orthogonal directions.
pub trait DirectionPair {}

/// The direction +X, left to right.
///
/// Only used as a type; it carries no data.
#[derive(Debug, Clone, Copy, PartialEq, Eq)]
pub struct X;

/// The direction +Y, bottom to top.
///
/// Only used as a type; it carries no data.
#[derive(Debug, Clone, Copy, PartialEq, Eq)]
pub struct Y;

/// Reverse a direction.
///
/// Only used as a type; it carries no data.
#[derive(Debug)]
pub struct Rev<T>(PhantomData<T>);

/// A direction that also signifies stretch.
///
/// Only used as a type; it carries no data.
#[derive(Debug)]
pub struct Stretch<T>(PhantomData<T>);

impl Direction for X {
    type Pos = Self;

    open spec fn spec_reversed() -> bool {
        false
    }

    open spec fn spec_bucket(sides: (Trinary, Trinary)) -> Trinary {
        sides.0
    }

    fn reversed() -> (r: bool) {
        false
    }

    fn bucket(sides: (Trinary, Trinary)) -> (r: Trinary) {
        sides.0
    }
}

impl Direction for Y {
    type Pos = Self;

    open spec fn spec_reversed() -> bool {
        false
    }

    open spec fn spec_bucket(sides: (Trinary, Trinary)) -> Trinary {
        sides.1
    }

    fn reversed() -> (r: bool) {
        false
    }

    fn bucket(sides: (Trinary, Trinary)) -> (r: Trinary) {
        sides.1
    }
}

impl<T: Direction> Direction for Rev<T> {
    type Pos = T::Pos;

    open spec fn spec_reversed() -> bool {
        !T::spec_reversed()
    }

    open spec fn spec_bucket(sides: (Trinary, Trinary)) -> Trinary {
        spec_trinary_flip(T::spec_bucket(sides))
    }

    fn reversed() -> (r: bool) {
        !T::reversed()
    }

    fn bucket(sides: (Trinary, Trinary)) -> (r: Trinary) {
        match T::bucket(sides) {
            Trinary::Neg => Trinary::Pos,
            Trinary::Mid => Trinary::Mid,
            Trinary::Pos => Trinary::Neg,
        }
    }
}

impl<T: Direction> Direction for Stretch<T> {
    type Pos = T::Pos;

    open spec fn spec_reversed() -> bool {
        T::spec_reversed()
    }

    open spec fn spec_bucket(sides: (Trinary, Trinary)) -> Trinary {
        T::spec_bucket(sides)
    }

    fn reversed() -> (r: bool) {
        T::reversed()
    }

    fn bucket(sides: (Trinary, Trinary)) -> (r: Trinary) {
        T::bucket(sides)
    }
}

/// Direction and stretch of a layout.
pub trait StretchDir: Direction {
    spec fn spec_stretch() -> bool;

    fn stretch() -> (r: bool)
        ensures
            r == Self::spec_stretch(),
    ;
}

impl StretchDir for X {
    open spec fn spec_stretch() -> bool {
        false
    }

    fn stretch() -> (r: bool) {
        false
    }
}

impl StretchDir for Y {
    open spec fn spec_stretch() -> bool {
        false
    }

    fn stretch() -> (r: bool) {
        false
    }
}

impl<T: StretchDir> StretchDir for Rev<T> {
    open spec fn spec_stretch() -> bool {
        T::spec_stretch()
    }

    fn stretch() -> (r: bool) {
        T::stretch()
    }
}

impl<T: Direction> StretchDir for Stretch<T> {
    open spec fn spec_stretch() -> bool {
        true
    }

    fn stretch() -> (r: bool) {
        true
    }
}

impl DirectionPair for (X, Y) {}

impl DirectionPair for (Rev<X>, Y) {}

impl DirectionPair for (X, Rev<Y>) {}

impl DirectionPair for (Rev<X>, Rev<Y>) {}

impl DirectionPair for (Stretch<X>, Y) {}

impl DirectionPair for (Stretch<Rev<X>>, Y) {}

impl DirectionPair for (Stretch<X>, Rev<Y>) {}

impl DirectionPair for (Stretch<Rev<X>>, Rev<Y>) {}

/// Reversing a direction twice gives back its reversal and its buckets,
/// and stretching changes neither.
pub proof fn lemma_rev_rev<T: Direction>(sides: (Trinary, Trinary))
    ensures
        <Rev<Rev<T>> as Direction>::spec_reversed() == T::spec_reversed(),
        <Rev<Rev<T>> as Direction>::spec_bucket(sides) == T::spec_bucket(sides),
        <Stretch<T> as Direction>::spec_reversed() == T::spec_reversed(),
        <Stretch<T> as Direction>::spec_bucket(sides) == T::spec_bucket(sides),
{
}

/// A reversed direction sorts every item into the opposite bucket.
pub proof fn lemma_rev_bucket<T: Direction>(sides: (Trinary, Trinary))
    ensures
        <Rev<T> as Direction>::spec_bucket(sides) == spec_trinary_flip(T::spec_bucket(sides)),
        <Rev<T> as Direction>::spec_reversed() != T::spec_reversed(),
{
}

} // verus!
