//! Construction of the plain storage types over native scalars.

use planar::types::point::Point;
use planar::types::segment::Segment;
use planar::types::triangle::Triangle;

#[test]
fn point_test_new_usize() {
    let out = Point::new(0_usize, 0_usize);
    let expected = Point {
        x: 0_usize,
        y: 0_usize,
    };
    assert_eq!(out, expected);
}

#[test]
fn point_test_new_isize() {
    let out = Point::new(0_isize, 0_isize);
    let expected = Point {
        x: 0_isize,
        y: 0_isize,
    };
    assert_eq!(out, expected);
}

#[test]
fn point_test_new_float() {
    let out = Point::new(0_f64, 0_f64);
    let expected = Point { x: 0_f64, y: 0_f64 };
    assert_eq!(out, expected);
}

#[test]
fn segment_test_new_usize() {
    let p0 = Point::new(0_usize, 0_usize);
    let p1 = Point::new(0_usize, 1_usize);
    let out: Segment<usize> = Segment::new(p0, p1);
    let expected: Segment<usize> = Segment { p0, p1 };
    assert_eq!(out, expected);
}

#[test]
fn segment_test_new_isize() {
    let p0 = Point::new(0_isize, 0_isize);
    let p1 = Point::new(0_isize, 1_isize);
    let out: Segment<isize> = Segment::new(p0, p1);
    let expected: Segment<isize> = Segment { p0, p1 };
    assert_eq!(out, expected);
}

#[test]
fn segment_test_new_float() {
    let p0 = Point::new(0_f64, 0_f64);
    let p1 = Point::new(0_f64, 1_f64);
    let out: Segment<f64> = Segment::new(p0, p1);
    let expected: Segment<f64> = Segment { p0, p1 };
    assert_eq!(out, expected);
}

#[test]
fn triangle_test_new_usize() {
    let vertices = [
        Point::new(0_usize, 0_usize),
        Point::new(0_usize, 1_usize),
        Point::new(1_usize, 0_usize),
    ];
    let out: Triangle<usize> = Triangle::new(vertices);
    let expected: Triangle<usize> = Triangle { vertices };
    assert_eq!(out, expected);
}

#[test]
fn triangle_test_new_isize() {
    let vertices = [
        Point::new(0_isize, 0_isize),
        Point::new(0_isize, 1_isize),
        Point::new(1_isize, 0_isize),
    ];
    let out: Triangle<isize> = Triangle::new(vertices);
    let expected: Triangle<isize> = Triangle { vertices };
    assert_eq!(out, expected);
}

#[test]
fn triangle_test_new_float() {
    let vertices = [
        Point::new(0_f64, 0_f64),
        Point::new(0_f64, 1_f64),
        Point::new(1_f64, 0_f64),
    ];
    let out: Triangle<f64> = Triangle::new(vertices);
    let expected: Triangle<f64> = Triangle { vertices };
    assert_eq!(out, expected);
}
