//! Distance and intersection behaviour over double and single precision
//! scalars routed through the capability traits.

use planar::traits::distance::Distance;
use planar::traits::intersection::Intersects;
use planar::traits::numbers::{Canonical, Floats, Integers};
use planar::traits::segment::Segment;
use planar::types::point::Point;

#[derive(Clone, Copy, Debug, PartialEq)]
struct F(f64);

impl Integers for F {
    fn eq_model(a: Self, b: Self) -> bool {
        a.0 == b.0
    }
    fn le_model(a: Self, b: Self) -> bool {
        a.0 <= b.0
    }
    fn lt_model(a: Self, b: Self) -> bool {
        a.0 < b.0
    }
    fn add_model(a: Self, b: Self) -> Self {
        F(a.0 + b.0)
    }
    fn sub_model(a: Self, b: Self) -> Self {
        F(a.0 - b.0)
    }
    fn mul_model(a: Self, b: Self) -> Self {
        F(a.0 * b.0)
    }
    fn zero_model() -> Self {
        F(0.0)
    }
    fn eqv(self, other: Self) -> bool {
        self.0 == other.0
    }
    fn le(self, other: Self) -> bool {
        self.0 <= other.0
    }
    fn lt(self, other: Self) -> bool {
        self.0 < other.0
    }
    fn plus(self, other: Self) -> Self {
        F(self.0 + other.0)
    }
    fn minus(self, other: Self) -> Self {
        F(self.0 - other.0)
    }
    fn times(self, other: Self) -> Self {
        F(self.0 * other.0)
    }
    fn zero() -> Self {
        F(0.0)
    }
}

impl Canonical for F {
    fn add_model(a: Self, b: Self) -> Self {
        F(a.0 + b.0)
    }
    fn mul_model(a: Self, b: Self) -> Self {
        F(a.0 * b.0)
    }
    fn zero_model() -> Self {
        F(0.0)
    }
    fn zero_laws() {}
    fn plus(self, other: Self) -> Self {
        F(self.0 + other.0)
    }
    fn times(self, other: Self) -> Self {
        F(self.0 * other.0)
    }
}

impl Floats for F {
    type Canon = F;
    fn to_canon_model(a: Self) -> Option<F> {
        Some(a)
    }
    fn from_canon_model(c: F) -> Option<F> {
        Some(c)
    }
    fn sqrt_model(a: Self) -> Self {
        F(a.0.sqrt())
    }
    fn half_model(a: Self) -> Option<Self> {
        Some(F(a.0 * 0.5))
    }
    fn eps_model() -> Option<Self> {
        Some(F(f64::EPSILON))
    }
    fn pi_model() -> Option<Self> {
        Some(F(std::f64::consts::PI))
    }
    fn regular_model(a: Self) -> bool {
        a.0.is_finite()
    }
    fn zero_laws(_a: Self) {}
    fn neg_square_law(_a: Self, _b: Self) {}
    fn to_canon(self) -> Option<F> {
        Some(self)
    }
    fn from_canon(c: F) -> Option<F> {
        Some(c)
    }
    fn sqrt(self) -> F {
        F(self.0.sqrt())
    }
    fn half(self) -> Option<F> {
        Some(F(self.0 * 0.5))
    }
    fn eps() -> Option<F> {
        Some(F(f64::EPSILON))
    }
    fn pi() -> Option<F> {
        Some(F(std::f64::consts::PI))
    }
}

#[derive(Clone, Copy, Debug, PartialEq)]
struct G(f32);

impl Integers for G {
    fn eq_model(a: Self, b: Self) -> bool {
        a.0 == b.0
    }
    fn le_model(a: Self, b: Self) -> bool {
        a.0 <= b.0
    }
    fn lt_model(a: Self, b: Self) -> bool {
        a.0 < b.0
    }
    fn add_model(a: Self, b: Self) -> Self {
        G(a.0 + b.0)
    }
    fn sub_model(a: Self, b: Self) -> Self {
        G(a.0 - b.0)
    }
    fn mul_model(a: Self, b: Self) -> Self {
        G(a.0 * b.0)
    }
    fn zero_model() -> Self {
        G(0.0)
    }
    fn eqv(self, other: Self) -> bool {
        self.0 == other.0
    }
    fn le(self, other: Self) -> bool {
        self.0 <= other.0
    }
    fn lt(self, other: Self) -> bool {
        self.0 < other.0
    }
    fn plus(self, other: Self) -> Self {
        G(self.0 + other.0)
    }
    fn minus(self, other: Self) -> Self {
        G(self.0 - other.0)
    }
    fn times(self, other: Self) -> Self {
        G(self.0 * other.0)
    }
    fn zero() -> Self {
        G(0.0)
    }
}

impl Floats for G {
    type Canon = F;
    fn to_canon_model(a: Self) -> Option<F> {
        Some(F(a.0 as f64))
    }
    fn from_canon_model(c: F) -> Option<G> {
        Some(G(c.0 as f32))
    }
    fn sqrt_model(a: Self) -> Self {
        G(a.0.sqrt())
    }
    fn half_model(a: Self) -> Option<Self> {
        Some(G(a.0 * 0.5))
    }
    fn eps_model() -> Option<Self> {
        Some(G(f64::EPSILON as f32))
    }
    fn pi_model() -> Option<Self> {
        Some(G(std::f64::consts::PI as f32))
    }
    fn regular_model(a: Self) -> bool {
        a.0.is_finite()
    }
    fn zero_laws(_a: Self) {}
    fn neg_square_law(_a: Self, _b: Self) {}
    fn to_canon(self) -> Option<F> {
        Some(F(self.0 as f64))
    }
    fn from_canon(c: F) -> Option<G> {
        Some(G(c.0 as f32))
    }
    fn sqrt(self) -> G {
        G(self.0.sqrt())
    }
    fn half(self) -> Option<G> {
        Some(G(self.0 * 0.5))
    }
    fn eps() -> Option<G> {
        Some(G(f64::EPSILON as f32))
    }
    fn pi() -> Option<G> {
        Some(G(std::f64::consts::PI as f32))
    }
}

fn p(x: f64, y: f64) -> Point<F> {
    Point::new(F(x), F(y))
}

#[test]
fn test_point_distance() {
    // Horizontal
    let pt1 = Point::new(F(0f64), F(0f64));
    let pt2 = Point::new(F(10f64), F(0f64));
    assert_eq!(pt1.distance(&pt2).unwrap(), F(10f64));

    // Vertical
    let pt1 = Point::new(F(0f64), F(0f64));
    let pt2 = Point::new(F(0f64), F(10f64));
    assert_eq!(pt1.distance(&pt2).unwrap(), F(10f64));

    // Slope up
    let pt1 = Point::new(F(0f64), F(0f64));
    let pt2 = Point::new(F(10f64), F(10f64));
    assert_eq!(pt1.distance(&pt2).unwrap(), F(200f64.sqrt()));

    // Slope down
    let pt1 = Point::new(F(0f64), F(0f64));
    let pt2 = Point::new(F(-10f64), F(-10f64));
    assert_eq!(pt1.distance(&pt2).unwrap(), F(200f64.sqrt()));
}

#[test]
fn test_point_distance2() {
    // Horizontal
    let pt1 = Point::new(F(0f64), F(0f64));
    let pt2 = Point::new(F(10f64), F(0f64));
    assert_eq!(pt1.distance2(&pt2).unwrap(), F(100f64));

    // Vertical
    let pt1 = Point::new(F(0f64), F(0f64));
    let pt2 = Point::new(F(0f64), F(10f64));
    assert_eq!(pt1.distance2(&pt2).unwrap(), F(100f64));

    // Slope up
    let pt1 = Point::new(F(0f64), F(0f64));
    let pt2 = Point::new(F(10f64), F(10f64));
    assert_eq!(pt1.distance2(&pt2).unwrap(), F(200f64));

    // Slope down
    let pt1 = Point::new(F(0f64), F(0f64));
    let pt2 = Point::new(F(-10f64), F(-10f64));
    assert_eq!(pt1.distance2(&pt2).unwrap(), F(200f64));
}

#[test]
fn test_f64_tuple_distance() {
    // Horizontal
    let pt1 = (F(0f64), F(0f64));
    let pt2 = (F(10f64), F(0f64));
    assert_eq!(pt1.distance(&pt2).unwrap(), F(10f64));

    // Vertical
    let pt1 = (F(0f64), F(0f64));
    let pt2 = (F(0f64), F(10f64));
    assert_eq!(pt1.distance(&pt2).unwrap(), F(10f64));

    // Slope up
    let pt1 = (F(0f64), F(0f64));
    let pt2 = (F(10f64), F(10f64));
    assert_eq!(pt1.distance(&pt2).unwrap(), F(200f64.sqrt()));

    // Slope down
    let pt1 = (F(0f64), F(0f64));
    let pt2 = (F(-10f64), F(-10f64));
    assert_eq!(pt1.distance(&pt2).unwrap(), F(200f64.sqrt()));
}

#[test]
fn test_f64_tuple_distance2() {
    // Horizontal
    let pt1 = (F(0f64), F(0f64));
    let pt2 = (F(10f64), F(0f64));
    assert_eq!(pt1.distance2(&pt2).unwrap(), F(100f64));

    // Vertical
    let pt1 = (F(0f64), F(0f64));
    let pt2 = (F(0f64), F(10f64));
    assert_eq!(pt1.distance2(&pt2).unwrap(), F(100f64));

    // Slope up
    let pt1 = (F(0f64), F(0f64));
    let pt2 = (F(10f64), F(10f64));
    assert_eq!(pt1.distance2(&pt2).unwrap(), F(200f64));

    // Slope down
    let pt1 = (F(0f64), F(0f64));
    let pt2 = (F(-10f64), F(-10f64));
    assert_eq!(pt1.distance2(&pt2).unwrap(), F(200f64));
}

#[test]
fn test_f32_tuple_distance() {
    // Horizontal
    let pt1 = (G(0f32), G(0f32));
    let pt2 = (G(10f32), G(0f32));
    assert_eq!(pt1.distance(&pt2).unwrap(), G(10f32));

    // Vertical
    let pt1 = (G(0f32), G(0f32));
    let pt2 = (G(0f32), G(10f32));
    assert_eq!(pt1.distance(&pt2).unwrap(), G(10f32));

    // Slope up
    let pt1 = (G(0f32), G(0f32));
    let pt2 = (G(10f32), G(10f32));
    assert_eq!(pt1.distance(&pt2).unwrap(), G(200f32.sqrt()));

    // Slope down
    let pt1 = (G(0f32), G(0f32));
    let pt2 = (G(-10f32), G(-10f32));
    assert_eq!(pt1.distance(&pt2).unwrap(), G(200f32.sqrt()));
}

#[test]
fn test_f32_tuple_distance2() {
    // Horizontal
    let pt1 = (G(0f32), G(0f32));
    let pt2 = (G(10f32), G(0f32));
    assert_eq!(pt1.distance2(&pt2).unwrap(), G(100f32));

    // Vertical
    let pt1 = (G(0f32), G(0f32));
    let pt2 = (G(0f32), G(10f32));
    assert_eq!(pt1.distance2(&pt2).unwrap(), G(100f32));

    // Slope up
    let pt1 = (G(0f32), G(0f32));
    let pt2 = (G(10f32), G(10f32));
    assert_eq!(pt1.distance2(&pt2).unwrap(), G(200f32));

    // Slope down
    let pt1 = (G(0f32), G(0f32));
    let pt2 = (G(-10f32), G(-10f32));
    assert_eq!(pt1.distance2(&pt2).unwrap(), G(200f32));
}

#[test]
fn test_distance_symmetric_concrete() {
    let a = p(1.5, -2.25);
    let b = p(-7.0, 3.5);
    assert_eq!(a.distance(&b).unwrap(), b.distance(&a).unwrap());
    assert_eq!(a.distance2(&b).unwrap(), b.distance2(&a).unwrap());
}

#[test]
fn test_distance_degenerate_concrete() {
    let a = p(3.25, -11.5);
    assert_eq!(a.distance(&a).unwrap(), F(0.0));
    assert_eq!(a.distance2(&a).unwrap(), F(0.0));
}

#[test]
fn test_triangle_inequality_concrete() {
    let a = p(0.0, 0.0);
    let b = p(3.0, 7.0);
    let c = p(-4.0, 2.5);
    let direct = a.distance(&c).unwrap().0;
    let through = a.distance(&b).unwrap().0 + b.distance(&c).unwrap().0;
    assert!(direct <= through + f64::EPSILON);
}

#[test]
fn test_on_segment_membership() {
    let seg = (p(0.0, 0.0), p(10.0, 10.0));
    assert!(seg.on_seg(&p(5.0, 5.0)).unwrap());
    assert!(!seg.on_seg(&p(5.0, 6.0)).unwrap());
    assert_eq!(seg.magnitude().unwrap(), F(200f64.sqrt()));
    assert_eq!(seg.magnitude2().unwrap(), F(200f64));
}

#[test]
fn test_cross_sign() {
    let seg = (p(0.0, 0.0), p(10.0, 0.0));
    // A point above the segment turns counter-clockwise: positive cross.
    assert!(seg.cross(&p(5.0, 5.0)).0 > 0.0);
    // A point below turns clockwise: negative cross.
    assert!(seg.cross(&p(5.0, -5.0)).0 < 0.0);
    // A collinear point gives a zero cross.
    assert_eq!(seg.cross(&p(5.0, 0.0)), F(0.0));
}

#[test]
fn test_intersection_ground_truth() {
    let a = (p(0.0, 0.0), p(10.0, 10.0));
    let b = (p(0.0, 10.0), p(10.0, 0.0));
    assert!(a.intersects(&b).unwrap());

    let c = (p(0.0, 0.0), p(1.0, 0.0));
    let d = (p(0.0, 1.0), p(1.0, 1.0));
    assert!(!c.intersects(&d).unwrap());
}

#[test]
fn test_intersection_symmetric_concrete() {
    let pairs = [
        ((p(0.0, 0.0), p(10.0, 10.0)), (p(0.0, 10.0), p(10.0, 0.0))),
        ((p(0.0, 0.0), p(1.0, 0.0)), (p(0.0, 1.0), p(1.0, 1.0))),
        ((p(0.0, 0.0), p(4.0, 4.0)), (p(2.0, 2.0), p(9.0, -3.0))),
        ((p(0.0, 0.0), p(4.0, 0.0)), (p(4.0, 0.0), p(7.0, 5.0))),
    ];
    for (a, b) in pairs {
        assert_eq!(a.intersects(&b).unwrap(), b.intersects(&a).unwrap());
    }
}

#[test]
fn test_intersection_endpoint_touch() {
    // The segments share the endpoint (4, 4) and only touch there.
    let a = (p(0.0, 0.0), p(4.0, 4.0));
    let b = (p(4.0, 4.0), p(9.0, 2.0));
    assert!(a.intersects(&b).unwrap());
}
