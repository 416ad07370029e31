//! The reference exact scalar.
//!
//! A 64-bit integer with saturating ring arithmetic. It witnesses that the
//! capability contracts and their algebraic laws are satisfiable, and it is
//! the scalar of choice where orientation products, comparisons and
//! bounding boxes must never round. As a coarse type it has no
//! representation for one half, the tolerance epsilon or pi, so the
//! floating-only metrics report a conversion failure on it, and its square
//! root is the integer square root.

use crate::traits::numbers::{Canonical, Floats, Integers};
use vstd::prelude::*;

verus! {

/// An exact scalar value.
#[derive(Clone, Copy, Debug, PartialEq, Eq, Structural)]
pub struct Exact(pub i64);

/// `x` clamped into the 64-bit signed range.
pub open spec fn sat64(x: int) -> int {
    if x > i64::MAX as int {
        i64::MAX as int
    } else if x < i64::MIN as int {
        i64::MIN as int
    } else {
        x
    }
}

/// Whether `r` is the integer square root of `x`: zero for a non-positive
/// `x`, else the greatest nonnegative value whose square is at most `x`.
pub open spec fn is_isqrt(x: int, r: int) -> bool {
    if x <= 0 {
        r == 0
    } else {
        0 <= r && r * r <= x < (r + 1) * (r + 1)
    }
}

/// The integer square root of `x`.
pub open spec fn isqrt_spec(x: int) -> int {
    choose|r: int| is_isqrt(x, r)
}

/// The integer square root is unique.
proof fn lemma_isqrt_unique(x: int, r1: int, r2: int)
    requires
        is_isqrt(x, r1),
        is_isqrt(x, r2),
    ensures
        r1 == r2,
{
    if x > 0 {
        if r1 < r2 {
            assert((r1 + 1) * (r1 + 1) <= r2 * r2) by (nonlinear_arith)
                requires
                    0 <= r1 < r2,
            ;
        }
        if r2 < r1 {
            assert((r2 + 1) * (r2 + 1) <= r1 * r1) by (nonlinear_arith)
                requires
                    0 <= r2 < r1,
            ;
        }
    }
}

/// A witness for the integer square root pins down what `isqrt_spec` picks.
proof fn lemma_isqrt_is(x: int, r: int)
    requires
        is_isqrt(x, r),
    ensures
        isqrt_spec(x) == r,
{
    assert(is_isqrt(x, isqrt_spec(x))) by {
        assert(exists|q: int| is_isqrt(x, q));
    }
    lemma_isqrt_unique(x, r, isqrt_spec(x));
}

impl Integers for Exact {
    open spec fn eq_model(a: Self, b: Self) -> bool {
        a.0 == b.0
    }

    open spec fn le_model(a: Self, b: Self) -> bool {
        a.0 <= b.0
    }

    open spec fn lt_model(a: Self, b: Self) -> bool {
        a.0 < b.0
    }

    open spec fn add_model(a: Self, b: Self) -> Self {
        Exact(sat64(a.0 + b.0) as i64)
    }

    open spec fn sub_model(a: Self, b: Self) -> Self {
        Exact(sat64(a.0 - b.0) as i64)
    }

    open spec fn mul_model(a: Self, b: Self) -> Self {
        Exact(sat64(a.0 * b.0) as i64)
    }

    open spec fn zero_model() -> Self {
        Exact(0)
    }

    fn eqv(self, other: Self) -> bool {
        self.0 == other.0
    }

    fn le(self, other: Self) -> bool {
        self.0 <= other.0
    }

    fn lt(self, other: Self) -> bool {
        self.0 < other.0
    }

    fn plus(self, other: Self) -> Self {
        let w: i128 = self.0 as i128 + other.0 as i128;
        if w > i64::MAX as i128 {
            Exact(i64::MAX)
        } else if w < i64::MIN as i128 {
            Exact(i64::MIN)
        } else {
            Exact(w as i64)
        }
    }

    fn minus(self, other: Self) -> Self {
        let w: i128 = self.0 as i128 - other.0 as i128;
        if w > i64::MAX as i128 {
            Exact(i64::MAX)
        } else if w < i64::MIN as i128 {
            Exact(i64::MIN)
        } else {
            Exact(w as i64)
        }
    }

    fn times(self, other: Self) -> Self {
        proof {
            assert(-0x40000000000000000000000000000000 <= (self.0 as int) * (other.0 as int)
                <= 0x40000000000000000000000000000000) by (nonlinear_arith)
                requires
                    -0x8000000000000000 <= self.0 as int <= 0x7fffffffffffffff,
                    -0x8000000000000000 <= other.0 as int <= 0x7fffffffffffffff,
            ;
        }
        let w: i128 = (self.0 as i128) * (other.0 as i128);
        if w > i64::MAX as i128 {
            Exact(i64::MAX)
        } else if w < i64::MIN as i128 {
            Exact(i64::MIN)
        } else {
            Exact(w as i64)
        }
    }

    fn zero() -> Self {
        Exact(0)
    }
}

impl Canonical for Exact {
    open spec fn add_model(a: Self, b: Self) -> Self {
        Exact(sat64(a.0 + b.0) as i64)
    }

    open spec fn mul_model(a: Self, b: Self) -> Self {
        Exact(sat64(a.0 * b.0) as i64)
    }

    open spec fn zero_model() -> Self {
        Exact(0)
    }

    fn plus(self, other: Self) -> Self {
        let w: i128 = self.0 as i128 + other.0 as i128;
        if w > i64::MAX as i128 {
            Exact(i64::MAX)
        } else if w < i64::MIN as i128 {
            Exact(i64::MIN)
        } else {
            Exact(w as i64)
        }
    }

    fn times(self, other: Self) -> Self {
        proof {
            assert(-0x40000000000000000000000000000000 <= (self.0 as int) * (other.0 as int)
                <= 0x40000000000000000000000000000000) by (nonlinear_arith)
                requires
                    -0x8000000000000000 <= self.0 as int <= 0x7fffffffffffffff,
                    -0x8000000000000000 <= other.0 as int <= 0x7fffffffffffffff,
            ;
        }
        let w: i128 = (self.0 as i128) * (other.0 as i128);
        if w > i64::MAX as i128 {
            Exact(i64::MAX)
        } else if w < i64::MIN as i128 {
            Exact(i64::MIN)
        } else {
            Exact(w as i64)
        }
    }

    proof fn zero_laws() {
    }
}

impl Floats for Exact {
    type Canon = Exact;

    open spec fn to_canon_model(a: Self) -> Option<Exact> {
        Some(a)
    }

    open spec fn from_canon_model(c: Exact) -> Option<Exact> {
        Some(c)
    }

    open spec fn sqrt_model(a: Self) -> Self {
        Exact(isqrt_spec(a.0 as int) as i64)
    }

    open spec fn half_model(a: Self) -> Option<Self> {
        None
    }

    open spec fn eps_model() -> Option<Self> {
        None
    }

    open spec fn pi_model() -> Option<Self> {
        None
    }

    open spec fn regular_model(a: Self) -> bool {
        true
    }

    fn to_canon(self) -> Option<Exact> {
        Some(self)
    }

    fn from_canon(c: Exact) -> Option<Exact> {
        Some(c)
    }

    fn sqrt(self) -> Self {
        if self.0 <= 0 {
            proof {
                lemma_isqrt_is(self.0 as int, 0);
            }
            return Exact(0);
        }
        let x = self.0;
        let mut lo: i64 = 0;
        let mut hi: i64 = 3037000500;
        proof {
            assert(3037000500int * 3037000500int > i64::MAX as int) by (nonlinear_arith);
        }
        while hi - lo > 1
            invariant
                0 <= lo < hi <= 3037000500,
                0 < x as int,
                (lo as int) * (lo as int) <= x as int,
                (hi as int) * (hi as int) > x as int,
            decreases hi - lo,
        {
            let mid = lo + (hi - lo) / 2;
            assert(lo < mid < hi);
            proof {
                assert((mid as int) * (mid as int) < 0x7fffffffffffffff00000000 as int)
                    by (nonlinear_arith)
                    requires
                        0 <= mid as int <= 3037000500,
                ;
            }
            let m2: i128 = (mid as i128) * (mid as i128);
            if m2 <= x as i128 {
                lo = mid;
            } else {
                hi = mid;
            }
        }
        proof {
            assert(is_isqrt(x as int, lo as int));
            lemma_isqrt_is(x as int, lo as int);
        }
        Exact(lo)
    }

    fn half(self) -> Option<Self> {
        None
    }

    fn eps() -> Option<Self> {
        None
    }

    fn pi() -> Option<Self> {
        None
    }

    proof fn zero_laws(a: Self) {
        lemma_isqrt_is(0, 0);
    }

    proof fn neg_square_law(a: Self, b: Self) {
        let lo: int = i64::MIN as int;
        let hi: int = i64::MAX as int;
        let d1 = sat64(a.0 - b.0);
        let d2 = sat64(b.0 - a.0);
        assert((if d1 * d1 > hi {
            hi
        } else if d1 * d1 < lo {
            lo
        } else {
            d1 * d1
        }) == (if d2 * d2 > hi {
            hi
        } else if d2 * d2 < lo {
            lo
        } else {
            d2 * d2
        })) by (nonlinear_arith)
            requires
                lo == -0x8000000000000000,
                hi == 0x7fffffffffffffff,
                d1 == (if a.0 - b.0 > hi {
                    hi
                } else if a.0 - b.0 < lo {
                    lo
                } else {
                    a.0 - b.0
                }),
                d2 == (if b.0 - a.0 > hi {
                    hi
                } else if b.0 - a.0 < lo {
                    lo
                } else {
                    b.0 - a.0
                }),
                lo <= a.0 as int <= hi,
                lo <= b.0 as int <= hi,
        ;
        assert(sat64(d1 * d1) == sat64(d2 * d2));
    }
}

} // verus!
