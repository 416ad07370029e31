//! The reference exact scalar: saturating arithmetic, integer square
//! roots, and exact geometry through the shared generic kernel.

use planar::errors::GeomError;
use planar::traits::distance::Distance;
use planar::traits::numbers::{Floats, Integers};
use planar::traits::segment::Segment;
use planar::types::exact::Exact;
use planar::types::point::Point;
use planar::types::rectangle::Rectangle;

fn ep(x: i64, y: i64) -> Point<Exact> {
    Point::new(Exact(x), Exact(y))
}

#[test]
fn test_exact_distance_three_four_five() {
    let a = ep(0, 0);
    let b = ep(3, 4);
    assert_eq!(a.distance2(&b).unwrap(), Exact(25));
    assert_eq!(a.distance(&b).unwrap(), Exact(5));
}

#[test]
fn test_exact_integer_square_root() {
    assert_eq!(Exact(0).sqrt(), Exact(0));
    assert_eq!(Exact(-9).sqrt(), Exact(0));
    assert_eq!(Exact(10).sqrt(), Exact(3));
    assert_eq!(Exact(16).sqrt(), Exact(4));
    assert_eq!(Exact(i64::MAX).sqrt(), Exact(3037000499));
}

#[test]
fn test_exact_saturating_arithmetic() {
    assert_eq!(Exact(i64::MAX).plus(Exact(1)), Exact(i64::MAX));
    assert_eq!(Exact(i64::MIN).minus(Exact(1)), Exact(i64::MIN));
    assert_eq!(Exact(i64::MAX).times(Exact(2)), Exact(i64::MAX));
    assert_eq!(Exact(i64::MIN).times(Exact(2)), Exact(i64::MIN));
    assert_eq!(Exact(6).times(Exact(7)), Exact(42));
}

#[test]
fn test_exact_cross_is_exact() {
    let seg = (ep(0, 0), ep(1000000, 0));
    assert_eq!(seg.cross(&ep(500000, 1)), Exact(1000000));
    assert_eq!(seg.cross(&ep(500000, 0)), Exact(0));
}

#[test]
fn test_exact_bounding_box_metrics() {
    let points = vec![ep(1, 1), ep(1, -1), ep(3, -1), ep(3, 1)];
    let rect = Rectangle::from_points(points);
    assert_eq!(
        rect.vertices,
        [ep(1, -1), ep(3, -1), ep(3, 1), ep(1, 1)]
    );
    assert_eq!(rect.area().unwrap(), Exact(4));
    assert_eq!(rect.perimeter().unwrap(), Exact(8));
}

#[test]
fn test_exact_has_no_tolerance() {
    let seg = (ep(0, 0), ep(10, 0));
    assert_eq!(seg.on_seg(&ep(5, 0)).unwrap_err(), GeomError::ConversionFailure);
}
