//! Scalar capability traits.
//!
//! Geometry in this crate is generic over the scalar type of the coordinates.
//! A scalar participates through one of two capability contracts:
//!
//! * [`Integers`] is the broad storage capability: copyable values with
//!   ordered comparison and ring arithmetic. It is enough to build points,
//!   segments and triangles.
//! * [`Floats`] is the stricter capability needed by any geometry that
//!   divides, takes square roots or consumes pi: it adds a square root, a
//!   halving step, tolerance and pi constants, and a lossy conversion to and
//!   from a canonical higher-precision domain ([`Canonical`]).
//!
//! Each executable operation is pinned to a spec-level model supplied by the
//! implementor, so that every geometric result proved in this crate is an
//! exact function of those models. The proof obligations (`proof fn` members)
//! are the algebraic facts the geometry relies on; a verified implementor
//! must prove them, an unverified one promises them.

use vstd::prelude::*;

verus! {

/// The canonical higher-precision domain that squared magnitudes are
/// computed in before being converted back into the caller's scalar type.
pub trait Canonical: Sized + Copy + Send + Sync {
    /// Model of addition in the canonical domain.
    spec fn add_model(a: Self, b: Self) -> Self;

    /// Model of multiplication in the canonical domain.
    spec fn mul_model(a: Self, b: Self) -> Self;

    /// Model of the additive identity of the canonical domain.
    spec fn zero_model() -> Self;

    fn plus(self, other: Self) -> (r: Self)
        ensures
            r == Self::add_model(self, other),
    ;

    fn times(self, other: Self) -> (r: Self)
        ensures
            r == Self::mul_model(self, other),
    ;

    /// Zero is absorbed by the canonical sum and product.
    proof fn zero_laws()
        ensures
            Self::add_model(Self::zero_model(), Self::zero_model()) == Self::zero_model(),
            Self::mul_model(Self::zero_model(), Self::zero_model()) == Self::zero_model(),
    ;
}

/// The storage capability: scalars that can be kept in geometric values and
/// compared and combined arithmetically. Integer types satisfy it without
/// supporting square roots or pi.
pub trait Integers: Sized + Copy + Send + Sync {
    /// Model of the implementor's equality test.
    spec fn eq_model(a: Self, b: Self) -> bool;

    /// Model of the implementor's `<=` comparison.
    spec fn le_model(a: Self, b: Self) -> bool;

    /// Model of the implementor's `<` comparison.
    spec fn lt_model(a: Self, b: Self) -> bool;

    /// Model of addition.
    spec fn add_model(a: Self, b: Self) -> Self;

    /// Model of subtraction.
    spec fn sub_model(a: Self, b: Self) -> Self;

    /// Model of multiplication.
    spec fn mul_model(a: Self, b: Self) -> Self;

    /// Model of the additive identity.
    spec fn zero_model() -> Self;

    fn eqv(self, other: Self) -> (r: bool)
        ensures
            r == Self::eq_model(self, other),
    ;

    fn le(self, other: Self) -> (r: bool)
        ensures
            r == Self::le_model(self, other),
    ;

    fn lt(self, other: Self) -> (r: bool)
        ensures
            r == Self::lt_model(self, other),
    ;

    fn plus(self, other: Self) -> (r: Self)
        ensures
            r == Self::add_model(self, other),
    ;

    fn minus(self, other: Self) -> (r: Self)
        ensures
            r == Self::sub_model(self, other),
    ;

    fn times(self, other: Self) -> (r: Self)
        ensures
            r == Self::mul_model(self, other),
    ;

    fn zero() -> (r: Self)
        ensures
            r == Self::zero_model(),
    ;
}

/// The floating capability: everything a scalar needs so that distances,
/// areas and circle metrics are defined for it. Conversion into and out of
/// the canonical domain is fallible; a failed conversion is reported, never
/// silently truncated.
pub trait Floats: Integers {
    /// The canonical higher-precision domain used for squared magnitudes.
    type Canon: Canonical;

    /// Model of the fallible conversion into the canonical domain.
    spec fn to_canon_model(a: Self) -> Option<Self::Canon>;

    /// Model of the fallible conversion out of the canonical domain.
    spec fn from_canon_model(c: Self::Canon) -> Option<Self>;

    /// Model of the square root.
    spec fn sqrt_model(a: Self) -> Self;

    /// Model of halving (multiplication by the representation of one half);
    /// `None` when one half is not representable.
    spec fn half_model(a: Self) -> Option<Self>;

    /// Model of the tolerance constant: the canonical epsilon converted into
    /// this type, or `None` when it has no representation here.
    spec fn eps_model() -> Option<Self>;

    /// Model of pi converted into this type, or `None` when it has no
    /// representation here.
    spec fn pi_model() -> Option<Self>;

    /// The values on which the algebraic laws below are promised. An exact
    /// scalar admits every value; a rounding scalar excludes its
    /// non-finite values.
    spec fn regular_model(a: Self) -> bool;

    fn to_canon(self) -> (r: Option<Self::Canon>)
        ensures
            r == Self::to_canon_model(self),
    ;

    fn from_canon(c: Self::Canon) -> (r: Option<Self>)
        ensures
            r == Self::from_canon_model(c),
    ;

    fn sqrt(self) -> (r: Self)
        ensures
            r == Self::sqrt_model(self),
    ;

    fn half(self) -> (r: Option<Self>)
        ensures
            r == Self::half_model(self),
    ;

    fn eps() -> (r: Option<Self>)
        ensures
            r == Self::eps_model(),
    ;

    fn pi() -> (r: Option<Self>)
        ensures
            r == Self::pi_model(),
    ;

    /// A regular value subtracted from itself is zero, and zero passes
    /// through the canonical round trip, the square root, and the canonical
    /// ring operations unchanged.
    proof fn zero_laws(a: Self)
        ensures
            Self::regular_model(a) ==> Self::sub_model(a, a) == Self::zero_model(),
            Self::to_canon_model(Self::zero_model()) == Some(
                <Self::Canon as Canonical>::zero_model(),
            ),
            Self::from_canon_model(<Self::Canon as Canonical>::zero_model()) == Some(
                Self::zero_model(),
            ),
            Self::sqrt_model(Self::zero_model()) == Self::zero_model(),
    ;

    /// For regular values the two opposite differences convert into the
    /// canonical domain together, and their canonical squares agree. This is
    /// what makes a squared displacement independent of the direction it was
    /// measured in.
    proof fn neg_square_law(a: Self, b: Self)
        requires
            Self::regular_model(a),
            Self::regular_model(b),
        ensures
            (Self::to_canon_model(Self::sub_model(a, b)) is Some) == (Self::to_canon_model(
                Self::sub_model(b, a),
            ) is Some),
            Self::to_canon_model(Self::sub_model(a, b)) is Some ==> <Self::Canon as Canonical>::mul_model(
                Self::to_canon_model(Self::sub_model(a, b))->Some_0,
                Self::to_canon_model(Self::sub_model(a, b))->Some_0,
            ) == <Self::Canon as Canonical>::mul_model(
                Self::to_canon_model(Self::sub_model(b, a))->Some_0,
                Self::to_canon_model(Self::sub_model(b, a))->Some_0,
            ),
    ;
}

/// Whether `d` lies within the symmetric tolerance band around zero:
/// `-eps <= d <= eps`. Every tolerance decision in the crate goes through
/// this band or its executable counterpart, so the decision boundary stays
/// centered on zero.
pub open spec fn approx_zero_model<T: Integers>(d: T, eps: T) -> bool {
    T::le_model(d, eps) && T::le_model(T::sub_model(T::zero_model(), eps), d)
}

/// Whether `a` and `b` are equal within tolerance: their difference lies in
/// the tolerance band.
pub open spec fn approx_eq_model<T: Integers>(a: T, b: T, eps: T) -> bool {
    approx_zero_model(T::sub_model(a, b), eps)
}

/// Epsilon-tolerant equality with zero.
pub fn approximately_zero<T: Integers>(d: T, eps: T) -> (r: bool)
    ensures
        r == approx_zero_model(d, eps),
{
    d.le(eps) && T::zero().minus(eps).le(d)
}

/// Epsilon-tolerant equality of two scalars.
pub fn approximately_equal<T: Integers>(a: T, b: T, eps: T) -> (r: bool)
    ensures
        r == approx_eq_model(a, b, eps),
{
    approximately_zero(a.minus(b), eps)
}

/// Whether `d` lies at or beyond the tolerance band on the positive side.
pub fn clearly_positive<T: Integers>(d: T, eps: T) -> (r: bool)
    ensures
        r == T::le_model(eps, d),
{
    eps.le(d)
}

/// Whether `d` lies at or beyond the tolerance band on the negative side.
pub fn clearly_negative<T: Integers>(d: T, eps: T) -> (r: bool)
    ensures
        r == T::le_model(d, T::sub_model(T::zero_model(), eps)),
{
    d.le(T::zero().minus(eps))
}

/// The canonical square of the difference `a - b`: the difference taken in
/// the scalar type, converted into the canonical domain, and multiplied by
/// itself there. `None` when the difference has no canonical representation.
pub open spec fn canon_square<T: Floats>(a: T, b: T) -> Option<T::Canon> {
    match T::to_canon_model(T::sub_model(a, b)) {
        Some(c) => Some(<T::Canon as Canonical>::mul_model(c, c)),
        None => None,
    }
}

} // verus!
