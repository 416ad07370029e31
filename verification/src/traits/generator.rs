//! Randomized test geometries: circles and axis-aligned rectangles grown
//! from an anchor point.
//!
//! The random draw itself is not geometry: a generator implementation draws
//! its numbers wherever it likes and hands them to the verified builders
//! below, which fix how a drawn radius or corner coordinate becomes a
//! shape. The traits name the generator surface such an implementation
//! offers.

use crate::traits::numbers::{Floats, Integers};
use crate::types::point::Point;
use vstd::prelude::*;

verus! {

/// A circle with a randomized radius, anchored at an integer-scalar point.
pub trait IntCircleGenerator<T: Integers> {
    /// The anchor as center, with a radius drawn up to `max`.
    fn generate_int_circle(&self, max: T) -> (Point<T>, T);
}

/// A circle with a randomized radius, anchored at a float-scalar point.
pub trait FloatCircleGenerator<T: Floats> {
    /// The anchor as center, with a radius drawn up to `max`.
    fn generate_circle(&self, max: T) -> (Point<T>, T);
}

/// An axis-aligned rectangle with two randomized corner coordinates, the
/// anchor point taken as one corner.
pub trait IntRectangleGenerator<T: Integers> {
    /// Four corners grown from the anchor, the randomized coordinates drawn
    /// from `min` up to the anchor's own.
    fn generate_int_rectangle(&self, min: T) -> [Point<T>; 4];
}

/// An axis-aligned rectangle with two randomized corner coordinates, over a
/// float scalar.
pub trait FloatRectangleGenerator<T: Floats> {
    /// Four corners grown from the anchor, the randomized coordinates drawn
    /// from `min` up to the anchor's own.
    fn generate_rectangle(&self, min: T) -> [Point<T>; 4];
}

/// The circle a generator builds once its radius is drawn: the anchor as
/// center, the drawn value as radius.
pub fn circle_from_center<T>(center: Point<T>, radius: T) -> (r: (Point<T>, T))
    ensures
        r.0 == center,
        r.1 == radius,
{
    (center, radius)
}

/// The rectangle a generator builds once its two corner coordinates are
/// drawn: the anchor `corner` is kept, the opposite corner is
/// `(rand_x, rand_y)`, and the two mixed corners complete the axis-aligned
/// cycle in the order anchor, bottom right, opposite, top left.
pub fn rectangle_from_corner<T: Copy>(corner: Point<T>, rand_x: T, rand_y: T) -> (r: [Point<
    T,
>; 4])
    ensures
        r@[0] == corner,
        r@[1] == (Point { x: corner.x, y: rand_y }),
        r@[2] == (Point { x: rand_x, y: rand_y }),
        r@[3] == (Point { x: rand_x, y: corner.y }),
{
    let top_right: Point<T> = Point::new(rand_x, rand_y);
    let bottom_right: Point<T> = Point::new(corner.x, rand_y);
    let top_left: Point<T> = Point::new(rand_x, corner.y);

    [corner, bottom_right, top_right, top_left]
}

} // verus!
