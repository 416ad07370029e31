//! The atomic geometric value: an (x, y) pair.

use crate::traits::numbers::Integers;
use vstd::prelude::*;

verus! {

/// An immutable (x, y) pair over a scalar type. A point has no identity
/// beyond its coordinates: two points with equal coordinates are equal.
#[derive(Clone, Copy, Debug, PartialEq)]
pub struct Point<T> {
    pub x: T,
    pub y: T,
}

/// Coordinate-wise equality of two points under the scalar's own equality
/// model. This mirrors what the derived equality computes at run time.
pub open spec fn point_eq_model<T: Integers>(a: Point<T>, b: Point<T>) -> bool {
    T::eq_model(a.x, b.x) && T::eq_model(a.y, b.y)
}

impl<T> Point<T> {
    pub fn new(x: T, y: T) -> (r: Self)
        ensures
            r.x == x,
            r.y == y,
    {
        Self { x, y }
    }
}

} // verus!
