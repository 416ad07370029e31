//! The triangle value: three points.

use crate::types::point::Point;
use vstd::prelude::*;

verus! {

/// Three vertices, stored in the order given.
#[derive(Clone, Copy, Debug, PartialEq)]
pub struct Triangle<T> {
    pub vertices: [Point<T>; 3],
}

impl<T> Triangle<T> {
    pub fn new(vertices: [Point<T>; 3]) -> (r: Self)
        ensures
            r.vertices == vertices,
    {
        Self { vertices }
    }
}

} // verus!
