//! Euclidean distance through the canonical domain.
//!
//! The squared distance converts the displacement vector into the canonical
//! higher-precision domain, squares and sums it there, and converts the sum
//! back. The detour keeps the square terms at full precision even when the
//! scalar type is narrow.

use crate::errors::GeomError;
use crate::traits::numbers::{canon_square, Canonical, Floats};
use crate::types::point::Point;
use vstd::prelude::*;

verus! {

/// Distance between two values of a geometric type.
pub trait Distance<T, R, E> {
    fn distance(&self, other: &T) -> Result<R, E>;

    fn distance2(&self, other: &T) -> Result<R, E>;
}

/// What the squared distance between `a` and `b` computes: the displacement
/// `(b.x - a.x, b.y - a.y)` is converted into the canonical domain, its
/// squared magnitude is formed there, and the sum is converted back. Either
/// conversion failing is a `ConversionFailure`.
pub open spec fn distance2_model<T: Floats>(a: Point<T>, b: Point<T>) -> Result<T, GeomError> {
    let dx = T::sub_model(b.x, a.x);
    let dy = T::sub_model(b.y, a.y);
    match (T::to_canon_model(dx), T::to_canon_model(dy)) {
        (Some(cx), Some(cy)) => {
            let m2 = <T::Canon as Canonical>::add_model(
                <T::Canon as Canonical>::mul_model(cx, cx),
                <T::Canon as Canonical>::mul_model(cy, cy),
            );
            match T::from_canon_model(m2) {
                Some(d) => Ok(d),
                None => Err(GeomError::ConversionFailure),
            }
        },
        _ => Err(GeomError::ConversionFailure),
    }
}

/// What the distance between `a` and `b` computes: the square root of the
/// squared distance. A failing squared-distance step is reported as a
/// `CalculationFailure`.
pub open spec fn distance_model<T: Floats>(a: Point<T>, b: Point<T>) -> Result<T, GeomError> {
    match distance2_model(a, b) {
        Ok(d) => Ok(T::sqrt_model(d)),
        Err(_) => Err(GeomError::CalculationFailure),
    }
}

impl<T: Floats> Distance<Point<T>, T, GeomError> for Point<T> {
    fn distance(&self, other: &Point<T>) -> (r: Result<T, GeomError>)
        ensures
            r == distance_model(*self, *other),
    {
        match self.distance2(other) {
            Ok(d) => Ok(d.sqrt()),
            Err(_) => Err(GeomError::CalculationFailure),
        }
    }

    fn distance2(&self, other: &Point<T>) -> (r: Result<T, GeomError>)
        ensures
            r == distance2_model(*self, *other),
    {
        let dx = other.x.minus(self.x);
        let dy = other.y.minus(self.y);
        match (dx.to_canon(), dy.to_canon()) {
            (Some(cx), Some(cy)) => {
                let m2 = cx.times(cx).plus(cy.times(cy));
                match T::from_canon(m2) {
                    Some(d) => Ok(d),
                    None => Err(GeomError::ConversionFailure),
                }
            },
            _ => Err(GeomError::ConversionFailure),
        }
    }
}

impl<T: Floats> Distance<(T, T), T, GeomError> for (T, T) {
    fn distance(&self, other: &(T, T)) -> (r: Result<T, GeomError>)
        ensures
            r == distance_model((Point { x: self.0, y: self.1 }), (Point { x: other.0, y: other.1 })),
    {
        Point::new(self.0, self.1).distance(&Point::new(other.0, other.1))
    }

    fn distance2(&self, other: &(T, T)) -> (r: Result<T, GeomError>)
        ensures
            r == distance2_model((Point { x: self.0, y: self.1 }), (Point { x: other.0, y: other.1 })),
    {
        Point::new(self.0, self.1).distance2(&Point::new(other.0, other.1))
    }
}

/// The distance between two points does not depend on the order the points
/// are given in, success and failure alike, provided the coordinates are
/// regular values of the scalar type.
pub proof fn distance_symmetric<T: Floats>(a: Point<T>, b: Point<T>)
    requires
        T::regular_model(a.x),
        T::regular_model(a.y),
        T::regular_model(b.x),
        T::regular_model(b.y),
    ensures
        distance_model(a, b) == distance_model(b, a),
        distance2_model(a, b) == distance2_model(b, a),
{
    T::neg_square_law(b.x, a.x);
    T::neg_square_law(b.y, a.y);
    assert(canon_square::<T>(b.x, a.x) == canon_square::<T>(a.x, b.x));
    assert(canon_square::<T>(b.y, a.y) == canon_square::<T>(a.y, b.y));
}

/// The distance from a point to itself is zero, provided its coordinates
/// are regular values of the scalar type.
pub proof fn distance_degenerate<T: Floats>(a: Point<T>)
    requires
        T::regular_model(a.x),
        T::regular_model(a.y),
    ensures
        distance_model(a, a) == Ok::<T, GeomError>(T::zero_model()),
        distance2_model(a, a) == Ok::<T, GeomError>(T::zero_model()),
{
    T::zero_laws(a.x);
    T::zero_laws(a.y);
    <T::Canon as Canonical>::zero_laws();
}

} // verus!
