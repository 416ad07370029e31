//! The segment value: an ordered pair of points.

use crate::types::point::Point;
use vstd::prelude::*;

verus! {

/// An ordered pair of points. The direction from `p0` to `p1` matters for
/// orientation signs but not for intersection symmetry.
#[derive(Clone, Copy, Debug, PartialEq)]
pub struct Segment<T> {
    pub p0: Point<T>,
    pub p1: Point<T>,
}

impl<T> Segment<T> {
    pub fn new(p0: Point<T>, p1: Point<T>) -> (r: Self)
        ensures
            r.p0 == p0,
            r.p1 == p1,
    {
        Self { p0, p1 }
    }
}

} // verus!
