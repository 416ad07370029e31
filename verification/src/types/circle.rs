//! Circles: a center and a radius, with area and circumference.

use crate::errors::GeomError;
use crate::traits::numbers::{Floats, Integers};
use crate::types::point::Point;
use vstd::prelude::*;

verus! {

/// All points of a circle are at equal distance, the radius, from the
/// center. The sign of the radius is not validated.
#[derive(Clone, Copy, Debug, PartialEq)]
pub struct Circle<T: Floats> {
    pub center: Point<T>,
    pub radius: T,
}

/// What fetching pi computes: pi converted into the scalar type, or a
/// `ConversionFailure` when it has no representation there.
pub open spec fn circle_pi_model<T: Floats>() -> Result<T, GeomError> {
    match T::pi_model() {
        Some(p) => Ok(p),
        None => Err(GeomError::ConversionFailure),
    }
}

/// What the circle area computes: radius squared times pi.
pub open spec fn circle_area_model<T: Floats>(radius: T) -> Result<T, GeomError> {
    match T::pi_model() {
        Some(p) => Ok(T::mul_model(T::mul_model(radius, radius), p)),
        None => Err(GeomError::ConversionFailure),
    }
}

/// What the circumference computes: the radius doubled, times pi.
pub open spec fn circle_circumference_model<T: Floats>(radius: T) -> Result<T, GeomError> {
    match T::pi_model() {
        Some(p) => Ok(T::mul_model(T::add_model(radius, radius), p)),
        None => Err(GeomError::ConversionFailure),
    }
}

impl<T: Floats> Circle<T> {
    pub fn new(center: Point<T>, radius: T) -> (r: Circle<T>)
        ensures
            r.center == center,
            r.radius == radius,
    {
        Circle { center, radius }
    }

    /// Pi in the scalar type of this circle.
    pub fn pi(&self) -> (r: Result<T, GeomError>)
        ensures
            r == circle_pi_model::<T>(),
    {
        match T::pi() {
            Some(p) => Ok(p),
            None => Err(GeomError::ConversionFailure),
        }
    }

    /// The area: radius squared times pi.
    pub fn area(&self) -> (r: Result<T, GeomError>)
        ensures
            r == circle_area_model(self.radius),
    {
        let p = match self.pi() {
            Ok(p) => p,
            Err(e) => {
                return Err(e);
            },
        };
        Ok(self.radius.times(self.radius).times(p))
    }

    /// The circumference: twice the radius times pi.
    pub fn circumference(&self) -> (r: Result<T, GeomError>)
        ensures
            r == circle_circumference_model(self.radius),
    {
        let p = match self.pi() {
            Ok(p) => p,
            Err(e) => {
                return Err(e);
            },
        };
        Ok(self.radius.plus(self.radius).times(p))
    }
}

} // verus!
