//! Segment-segment intersection.
//!
//! Two segments properly cross when the two endpoints of each lie on
//! opposite sides of the other, read off the signs of four orientation
//! products. Otherwise they can still touch at an endpoint or collinearly:
//! an orientation product within tolerance of zero together with the
//! corresponding endpoint lying on the opposite segment.

use crate::errors::GeomError;
use crate::traits::numbers::{approx_zero_model, approximately_zero, clearly_negative, clearly_positive, Floats};
use crate::traits::segment::{cross_model, on_seg_model, Segment};
use crate::types::point::Point;
use vstd::prelude::*;

verus! {

/// Intersection of a geometric value with another.
pub trait Intersects<T, E> {
    fn intersects(&self, other: &T) -> Result<bool, E>;
}

/// The opposite-signs test of the proper-crossing case: one orientation
/// product lies at or beyond the tolerance band on the positive side, the
/// other at or beyond it on the negative side. Comparing both against the
/// symmetric band keeps the decision boundary centered on zero; a product
/// inside the band is treated as zero and handed to the touch cases.
pub open spec fn opposite_model<T: Floats>(d1: T, d2: T, eps: T) -> bool {
    let neg_eps = T::sub_model(T::zero_model(), eps);
    (T::le_model(eps, d1) && T::le_model(d2, neg_eps)) || (T::le_model(d1, neg_eps)
        && T::le_model(eps, d2))
}

/// What the intersection test computes. With `d1 = cross(b, a.0)`,
/// `d2 = cross(b, a.1)`, `d3 = cross(a, b.0)` and `d4 = cross(a, b.1)`:
/// the segments intersect when the opposite-signs test holds for both
/// pairs, or when some `dk` is within tolerance of zero and the
/// corresponding endpoint lies on the opposite segment. The touch cases are
/// tried in order and a failing on-segment step is reported.
pub open spec fn intersects_model<T: Floats>(
    a: (Point<T>, Point<T>),
    b: (Point<T>, Point<T>),
) -> Result<bool, GeomError> {
    match T::eps_model() {
        None => Err(GeomError::ConversionFailure),
        Some(eps) => {
            let d1 = cross_model(b, a.0);
            let d2 = cross_model(b, a.1);
            let d3 = cross_model(a, b.0);
            let d4 = cross_model(a, b.1);
            if opposite_model(d1, d2, eps) && opposite_model(d3, d4, eps) {
                Ok(true)
            } else {
                match touch_model(b, a.0, d1, eps) {
                    Err(e) => Err(e),
                    Ok(true) => Ok(true),
                    Ok(false) => match touch_model(b, a.1, d2, eps) {
                        Err(e) => Err(e),
                        Ok(true) => Ok(true),
                        Ok(false) => match touch_model(a, b.0, d3, eps) {
                            Err(e) => Err(e),
                            Ok(true) => Ok(true),
                            Ok(false) => match touch_model(a, b.1, d4, eps) {
                                Err(e) => Err(e),
                                Ok(r) => Ok(r),
                            },
                        },
                    },
                }
            }
        },
    }
}

/// One touch case: the orientation product `d` of point `p` against segment
/// `s` is within tolerance of zero and `p` lies on `s`. The on-segment step
/// runs only when the product is near zero, as the intersection test short
/// circuits it.
pub open spec fn touch_model<T: Floats>(s: (Point<T>, Point<T>), p: Point<T>, d: T, eps: T) -> Result<
    bool,
    GeomError,
> {
    if approx_zero_model(d, eps) {
        on_seg_model(s, p)
    } else {
        Ok(false)
    }
}

impl<T: Floats> Intersects<(Point<T>, Point<T>), GeomError> for (Point<T>, Point<T>) {
    fn intersects(&self, other: &(Point<T>, Point<T>)) -> (r: Result<bool, GeomError>)
        ensures
            r == intersects_model(*self, *other),
    {
        let eps = match T::eps() {
            Some(eps) => eps,
            None => {
                return Err(GeomError::ConversionFailure);
            },
        };
        let d1 = other.cross(&self.0);
        let d2 = other.cross(&self.1);
        let d3 = self.cross(&other.0);
        let d4 = self.cross(&other.1);

        let proper_first = (clearly_positive(d1, eps) && clearly_negative(d2, eps))
            || (clearly_negative(d1, eps) && clearly_positive(d2, eps));
        let proper_second = (clearly_positive(d3, eps) && clearly_negative(d4, eps))
            || (clearly_negative(d3, eps) && clearly_positive(d4, eps));
        if proper_first && proper_second {
            return Ok(true);
        }
        if approximately_zero(d1, eps) {
            match other.on_seg(&self.0) {
                Err(e) => {
                    return Err(e);
                },
                Ok(true) => {
                    return Ok(true);
                },
                Ok(false) => {},
            }
        }
        if approximately_zero(d2, eps) {
            match other.on_seg(&self.1) {
                Err(e) => {
                    return Err(e);
                },
                Ok(true) => {
                    return Ok(true);
                },
                Ok(false) => {},
            }
        }
        if approximately_zero(d3, eps) {
            match self.on_seg(&other.0) {
                Err(e) => {
                    return Err(e);
                },
                Ok(true) => {
                    return Ok(true);
                },
                Ok(false) => {},
            }
        }
        if approximately_zero(d4, eps) {
            match self.on_seg(&other.1) {
                Err(e) => {
                    return Err(e);
                },
                Ok(true) => {
                    return Ok(true);
                },
                Ok(false) => {},
            }
        }
        Ok(false)
    }
}

/// Intersection does not depend on the order the two segments are given in,
/// on every pair whose tolerance and on-segment steps are defined. (A scalar
/// type whose tolerance or canonical conversions are unrepresentable can
/// fail the two orders differently, as the touch cases are tried in a
/// different order.)
pub proof fn intersects_symmetric<T: Floats>(a: (Point<T>, Point<T>), b: (Point<T>, Point<T>))
    requires
        on_seg_model(b, a.0) is Ok,
        on_seg_model(b, a.1) is Ok,
        on_seg_model(a, b.0) is Ok,
        on_seg_model(a, b.1) is Ok,
    ensures
        intersects_model(a, b) == intersects_model(b, a),
{
    assert(T::eps_model() is Some);
}

} // verus!
