//! Segment predicates: signed orientation, on-segment membership, length.

use crate::errors::GeomError;
use crate::traits::distance::{distance2_model, distance_model, Distance};
use crate::traits::numbers::{approx_eq_model, approximately_equal, Floats, Integers};
use crate::types::point::Point;
use vstd::prelude::*;

verus! {

/// Predicates of a segment, here an ordered pair of points.
pub trait Segment<T, E> {
    fn cross(&self, other: &Point<T>) -> T;

    fn on_seg(&self, other: &Point<T>) -> Result<bool, E>;

    fn magnitude(&self) -> Result<T, E>;

    fn magnitude2(&self) -> Result<T, E>;
}

/// What the orientation product computes: twice the signed area of the
/// triangle formed by the segment `s` and the point `o`, by the shoelace
/// convention, as the scalar type combines the six products.
pub open spec fn cross_model<T: Integers>(s: (Point<T>, Point<T>), o: Point<T>) -> T {
    T::sub_model(
        T::sub_model(
            T::sub_model(
                T::add_model(
                    T::add_model(T::mul_model(s.0.x, s.1.y), T::mul_model(s.1.x, o.y)),
                    T::mul_model(o.x, s.0.y),
                ),
                T::mul_model(s.0.x, o.y),
            ),
            T::mul_model(s.1.x, s.0.y),
        ),
        T::mul_model(o.x, s.1.y),
    )
}

/// What the on-segment test computes: the point lies on the segment when the
/// sum of its distances to the two endpoints equals the segment's own length
/// within the scalar's tolerance. Fails when the tolerance has no
/// representation or a distance step fails.
pub open spec fn on_seg_model<T: Floats>(s: (Point<T>, Point<T>), p: Point<T>) -> Result<
    bool,
    GeomError,
> {
    match T::eps_model() {
        None => Err(GeomError::ConversionFailure),
        Some(eps) => match distance_model(s.0, p) {
            Err(e) => Err(e),
            Ok(d0) => match distance_model(s.1, p) {
                Err(e) => Err(e),
                Ok(d1) => match distance_model(s.0, s.1) {
                    Err(e) => Err(e),
                    Ok(m) => Ok(approx_eq_model(T::add_model(d0, d1), m, eps)),
                },
            },
        },
    }
}

impl<T: Floats> Segment<T, GeomError> for (Point<T>, Point<T>) {
    fn cross(&self, other: &Point<T>) -> (r: T)
        ensures
            r == cross_model(*self, *other),
    {
        self.0.x.times(self.1.y).plus(self.1.x.times(other.y)).plus(other.x.times(self.0.y)).minus(
            self.0.x.times(other.y),
        ).minus(self.1.x.times(self.0.y)).minus(other.x.times(self.1.y))
    }

    fn on_seg(&self, other: &Point<T>) -> (r: Result<bool, GeomError>)
        ensures
            r == on_seg_model(*self, *other),
    {
        let eps = match T::eps() {
            Some(eps) => eps,
            None => {
                return Err(GeomError::ConversionFailure);
            },
        };
        let d0 = match self.0.distance(other) {
            Ok(d) => d,
            Err(e) => {
                return Err(e);
            },
        };
        let d1 = match self.1.distance(other) {
            Ok(d) => d,
            Err(e) => {
                return Err(e);
            },
        };
        let m = match self.magnitude() {
            Ok(m) => m,
            Err(e) => {
                return Err(e);
            },
        };
        Ok(approximately_equal(d0.plus(d1), m, eps))
    }

    fn magnitude(&self) -> (r: Result<T, GeomError>)
        ensures
            r == distance_model(self.0, self.1),
    {
        self.0.distance(&self.1)
    }

    fn magnitude2(&self) -> (r: Result<T, GeomError>)
        ensures
            r == distance2_model(self.0, self.1),
    {
        self.0.distance2(&self.1)
    }
}

} // verus!
