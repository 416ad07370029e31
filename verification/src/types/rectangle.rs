//! Rectangles: axis-aligned bounding boxes derived from a polygon or a
//! point collection by a min/max sweep, with area and perimeter.

use crate::errors::GeomError;
use crate::traits::distance::{distance_model, Distance};
use crate::traits::numbers::{Floats, Integers};
use crate::types::point::Point;
use crate::types::polygon::{lemma_perimeter_err_persists, perimeter_model, perimeter_upto, Polygon};
use vstd::prelude::*;

verus! {

/// Exactly four points forming an axis-aligned bounding box. A rectangle is
/// derived from a polygon or a point collection, not freely constructed,
/// except through [`Rectangle::new`] for callers that already hold the
/// corners.
#[derive(Clone, Debug, PartialEq)]
pub struct Rectangle<T: Floats> {
    pub vertices: [Point<T>; 4],
}

/// The running maximum of the first `n` values of `s` under the scalar's
/// comparison, seeded with the first value, updating whenever the old
/// maximum compares at or below the next value.
pub open spec fn sweep_max_upto<T: Integers>(s: Seq<T>, n: int) -> T
    decreases n,
{
    if n <= 0 {
        s[0]
    } else {
        let m = sweep_max_upto(s, n - 1);
        if T::le_model(m, s[n - 1]) {
            s[n - 1]
        } else {
            m
        }
    }
}

/// The running minimum of the first `n` values of `s`, the mirror image of
/// [`sweep_max_upto`].
pub open spec fn sweep_min_upto<T: Integers>(s: Seq<T>, n: int) -> T
    decreases n,
{
    if n <= 0 {
        s[0]
    } else {
        let m = sweep_min_upto(s, n - 1);
        if T::le_model(s[n - 1], m) {
            s[n - 1]
        } else {
            m
        }
    }
}

/// The maximum the full sweep settles on.
pub open spec fn sweep_max<T: Integers>(s: Seq<T>) -> T {
    sweep_max_upto(s, s.len() as int)
}

/// The minimum the full sweep settles on.
pub open spec fn sweep_min<T: Integers>(s: Seq<T>) -> T {
    sweep_min_upto(s, s.len() as int)
}

/// The four corners of the axis-aligned bounding box of a point collection,
/// in the fixed order (min x, min y), (max x, min y), (max x, max y),
/// (min x, max y).
pub open spec fn bounding_corners_model<T: Floats>(ps: Seq<Point<T>>) -> Seq<Point<T>> {
    let xs = ps.map_values(|p: Point<T>| p.x);
    let ys = ps.map_values(|p: Point<T>| p.y);
    seq![
        Point { x: sweep_min(xs), y: sweep_min(ys) },
        Point { x: sweep_max(xs), y: sweep_min(ys) },
        Point { x: sweep_max(xs), y: sweep_max(ys) },
        Point { x: sweep_min(xs), y: sweep_max(ys) },
    ]
}

/// What the rectangle area computes: the distance from corner 0 to corner 1
/// (the width) times the distance from corner 1 to corner 2 (the height),
/// the first failing distance step reported.
pub open spec fn rect_area_model<T: Floats>(vs: Seq<Point<T>>) -> Result<T, GeomError> {
    match distance_model(vs[0], vs[1]) {
        Err(e) => Err(e),
        Ok(w) => match distance_model(vs[1], vs[2]) {
            Err(e) => Err(e),
            Ok(h) => Ok(T::mul_model(w, h)),
        },
    }
}

impl<T: Floats> Rectangle<T> {
    pub fn new(vertices: [Point<T>; 4]) -> (r: Rectangle<T>)
        ensures
            r.vertices == vertices,
    {
        Rectangle { vertices }
    }

    /// A rectangle over the first four points of a vector; fewer than four
    /// points reject the rectangle.
    pub fn new_vec(vertices: Vec<Point<T>>) -> (r: Result<Rectangle<T>, GeomError>)
        ensures
            vertices@.len() >= 4 ==> r is Ok && r->Ok_0.vertices@ == vertices@.subrange(0, 4),
            vertices@.len() < 4 ==> r is Err && r->Err_0 == GeomError::InstantiationFailure,
    {
        if vertices.len() < 4 {
            return Err(GeomError::InstantiationFailure);
        }
        let corners = [vertices[0], vertices[1], vertices[2], vertices[3]];
        assert(corners@ =~= vertices@.subrange(0, 4));
        Ok(Rectangle { vertices: corners })
    }

    /// The perimeter: distances summed around the four-edge closed cycle,
    /// the same pattern as a polygon's perimeter.
    pub fn perimeter(&self) -> (r: Result<T, GeomError>)
        ensures
            r == perimeter_model(self.vertices@),
    {
        let ghost s = self.vertices@;
        proof {
            assert(perimeter_upto(s, 0) == Ok::<T, GeomError>(T::zero_model()));
        }
        let sum = T::zero();
        let d0 = match self.vertices[0].distance(&self.vertices[1]) {
            Ok(d) => d,
            Err(e) => {
                proof {
                    assert(perimeter_upto(s, 1) is Err);
                    lemma_perimeter_err_persists(s, 1, 4);
                }
                return Err(e);
            },
        };
        proof {
            assert(perimeter_upto(s, 1) == Ok::<T, GeomError>(T::add_model(T::zero_model(), d0)));
        }
        let d1 = match self.vertices[1].distance(&self.vertices[2]) {
            Ok(d) => d,
            Err(e) => {
                proof {
                    assert(perimeter_upto(s, 2) is Err);
                    lemma_perimeter_err_persists(s, 2, 4);
                }
                return Err(e);
            },
        };
        proof {
            assert(perimeter_upto(s, 2) == Ok::<T, GeomError>(
                T::add_model(T::add_model(T::zero_model(), d0), d1),
            ));
        }
        let d2 = match self.vertices[2].distance(&self.vertices[3]) {
            Ok(d) => d,
            Err(e) => {
                proof {
                    assert(perimeter_upto(s, 3) is Err);
                    lemma_perimeter_err_persists(s, 3, 4);
                }
                return Err(e);
            },
        };
        proof {
            assert(perimeter_upto(s, 3) == Ok::<T, GeomError>(
                T::add_model(T::add_model(T::add_model(T::zero_model(), d0), d1), d2),
            ));
        }
        let d3 = match self.vertices[3].distance(&self.vertices[0]) {
            Ok(d) => d,
            Err(e) => {
                proof {
                    assert(perimeter_upto(s, 4) is Err);
                }
                return Err(e);
            },
        };
        proof {
            assert(perimeter_upto(s, 4) == Ok::<T, GeomError>(
                T::add_model(
                    T::add_model(T::add_model(T::add_model(T::zero_model(), d0), d1), d2),
                    d3,
                ),
            ));
        }
        Ok(sum.plus(d0).plus(d1).plus(d2).plus(d3))
    }

    /// The area: width times height, both read off as corner distances.
    pub fn area(&self) -> (r: Result<T, GeomError>)
        ensures
            r == rect_area_model(self.vertices@),
    {
        let width = match self.vertices[0].distance(&self.vertices[1]) {
            Ok(w) => w,
            Err(e) => {
                return Err(e);
            },
        };
        let height = match self.vertices[1].distance(&self.vertices[2]) {
            Ok(h) => h,
            Err(e) => {
                return Err(e);
            },
        };
        Ok(width.times(height))
    }

    /// The axis-aligned bounding box of a polygon's vertices.
    pub fn from_polygon(polygon: Polygon<T>) -> (r: Rectangle<T>)
        requires
            polygon.vertices@.len() >= 1,
        ensures
            r.vertices@ == bounding_corners_model(polygon.vertices@),
    {
        Self::from_points(polygon.vertices)
    }

    /// The axis-aligned bounding box of a collection of points, found by a
    /// min/max sweep over both axes.
    pub fn from_points(points: Vec<Point<T>>) -> (r: Rectangle<T>)
        requires
            points@.len() >= 1,
        ensures
            r.vertices@ == bounding_corners_model(points@),
    {
        let ghost xs = points@.map_values(|p: Point<T>| p.x);
        let ghost ys = points@.map_values(|p: Point<T>| p.y);
        let n = points.len();
        let mut min_x = points[0].x;
        let mut max_x = points[0].x;
        let mut min_y = points[0].y;
        let mut max_y = points[0].y;
        let mut i: usize = 0;
        while i < n
            invariant
                n == points@.len(),
                n >= 1,
                0 <= i <= n,
                xs == points@.map_values(|p: Point<T>| p.x),
                ys == points@.map_values(|p: Point<T>| p.y),
                min_x == sweep_min_upto(xs, i as int),
                max_x == sweep_max_upto(xs, i as int),
                min_y == sweep_min_upto(ys, i as int),
                max_y == sweep_max_upto(ys, i as int),
            decreases n - i,
        {
            let px = points[i].x;
            let py = points[i].y;
            if max_x.le(px) {
                max_x = px;
            }
            if px.le(min_x) {
                min_x = px;
            }
            if max_y.le(py) {
                max_y = py;
            }
            if py.le(min_y) {
                min_y = py;
            }
            i = i + 1;
        }
        let corners = [
            Point { x: min_x, y: min_y },
            Point { x: max_x, y: min_y },
            Point { x: max_x, y: max_y },
            Point { x: min_x, y: max_y },
        ];
        assert(corners@ =~= bounding_corners_model(points@));
        Rectangle { vertices: corners }
    }
}

/// A comparison behaves as an order on the values of `s` when it is total
/// and transitive there; a rounding scalar meets this whenever the values
/// are not exceptional.
pub open spec fn orders_values<T: Integers>(s: Seq<T>) -> bool {
    (forall|i: int, j: int|
        0 <= i < s.len() && 0 <= j < s.len() ==> #[trigger] T::le_model(s[i], s[j])
            || T::le_model(s[j], s[i])) && (forall|i: int, j: int, k: int|
        0 <= i < s.len() && 0 <= j < s.len() && 0 <= k < s.len() && #[trigger] T::le_model(
            s[i],
            s[j],
        ) && #[trigger] T::le_model(s[j], s[k]) ==> T::le_model(s[i], s[k]))
}

/// When the comparison orders the values swept, the running maximum lies at
/// or above each of the first `n` values and is one of them.
pub proof fn lemma_sweep_max_bounds<T: Integers>(s: Seq<T>, n: int)
    requires
        1 <= n <= s.len(),
        orders_values::<T>(s),
    ensures
        forall|i: int| 0 <= i < n ==> T::le_model(s[i], sweep_max_upto(s, n)),
        exists|i: int| 0 <= i < n && sweep_max_upto(s, n) == s[i],
    decreases n,
{
    if n == 1 {
        assert(T::le_model(s[0], s[0]) || T::le_model(s[0], s[0]));
        assert(sweep_max_upto(s, 0) == s[0]);
        assert(sweep_max_upto(s, 1) == s[0]);
    } else {
        lemma_sweep_max_bounds(s, n - 1);
        let m = sweep_max_upto(s, n - 1);
        let w = choose|i: int| 0 <= i < n - 1 && m == s[i];
        if T::le_model(m, s[n - 1]) {
            assert forall|i: int| 0 <= i < n implies T::le_model(s[i], sweep_max_upto(s, n)) by {
                if i < n - 1 {
                    assert(T::le_model(s[i], s[w]) && T::le_model(s[w], s[n - 1]));
                }
                assert(T::le_model(s[n - 1], s[n - 1]) || T::le_model(s[n - 1], s[n - 1]));
            }
        } else {
            assert(T::le_model(s[n - 1], s[w]) || T::le_model(s[w], s[n - 1]));
        }
    }
}

/// When the comparison orders the values swept, the running minimum lies at
/// or below each of the first `n` values and is one of them.
pub proof fn lemma_sweep_min_bounds<T: Integers>(s: Seq<T>, n: int)
    requires
        1 <= n <= s.len(),
        orders_values::<T>(s),
    ensures
        forall|i: int| 0 <= i < n ==> T::le_model(sweep_min_upto(s, n), s[i]),
        exists|i: int| 0 <= i < n && sweep_min_upto(s, n) == s[i],
    decreases n,
{
    if n == 1 {
        assert(T::le_model(s[0], s[0]) || T::le_model(s[0], s[0]));
        assert(sweep_min_upto(s, 0) == s[0]);
        assert(sweep_min_upto(s, 1) == s[0]);
    } else {
        lemma_sweep_min_bounds(s, n - 1);
        let m = sweep_min_upto(s, n - 1);
        let w = choose|i: int| 0 <= i < n - 1 && m == s[i];
        if T::le_model(s[n - 1], m) {
            assert forall|i: int| 0 <= i < n implies T::le_model(sweep_min_upto(s, n), s[i]) by {
                if i < n - 1 {
                    assert(T::le_model(s[n - 1], s[w]) && T::le_model(s[w], s[i]));
                }
                assert(T::le_model(s[n - 1], s[n - 1]) || T::le_model(s[n - 1], s[n - 1]));
            }
        } else {
            assert(T::le_model(s[n - 1], s[w]) || T::le_model(s[w], s[n - 1]));
        }
    }
}

/// The derived corners really bound the collection: when the comparison
/// orders the coordinates on each axis, every point lies within the box,
/// and each box edge is attained by some point.
pub proof fn bounding_corners_bound<T: Floats>(ps: Seq<Point<T>>)
    requires
        ps.len() >= 1,
        orders_values::<T>(ps.map_values(|p: Point<T>| p.x)),
        orders_values::<T>(ps.map_values(|p: Point<T>| p.y)),
    ensures
        forall|i: int| 0 <= i < ps.len() ==> T::le_model(
            bounding_corners_model(ps)[0].x,
            #[trigger] ps[i].x,
        ) && T::le_model(ps[i].x, bounding_corners_model(ps)[1].x),
        forall|i: int| 0 <= i < ps.len() ==> T::le_model(
            bounding_corners_model(ps)[0].y,
            #[trigger] ps[i].y,
        ) && T::le_model(ps[i].y, bounding_corners_model(ps)[2].y),
        exists|i: int| 0 <= i < ps.len() && bounding_corners_model(ps)[0].x == ps[i].x,
        exists|i: int| 0 <= i < ps.len() && bounding_corners_model(ps)[0].y == ps[i].y,
        exists|i: int| 0 <= i < ps.len() && bounding_corners_model(ps)[1].x == ps[i].x,
        exists|i: int| 0 <= i < ps.len() && bounding_corners_model(ps)[2].y == ps[i].y,
{
    let xs = ps.map_values(|p: Point<T>| p.x);
    let ys = ps.map_values(|p: Point<T>| p.y);
    lemma_sweep_max_bounds::<T>(xs, xs.len() as int);
    lemma_sweep_min_bounds::<T>(xs, xs.len() as int);
    lemma_sweep_max_bounds::<T>(ys, ys.len() as int);
    lemma_sweep_min_bounds::<T>(ys, ys.len() as int);
    assert forall|i: int| 0 <= i < ps.len() implies T::le_model(
        bounding_corners_model(ps)[0].x,
        #[trigger] ps[i].x,
    ) && T::le_model(ps[i].x, bounding_corners_model(ps)[1].x) by {
        assert(xs[i] == ps[i].x);
    }
    assert forall|i: int| 0 <= i < ps.len() implies T::le_model(
        bounding_corners_model(ps)[0].y,
        #[trigger] ps[i].y,
    ) && T::le_model(ps[i].y, bounding_corners_model(ps)[2].y) by {
        assert(ys[i] == ps[i].y);
    }
    let wx = choose|i: int| 0 <= i < xs.len() && sweep_min(xs) == xs[i];
    assert(bounding_corners_model(ps)[0].x == ps[wx].x);
    let wy = choose|i: int| 0 <= i < ys.len() && sweep_min(ys) == ys[i];
    assert(bounding_corners_model(ps)[0].y == ps[wy].y);
    let vx = choose|i: int| 0 <= i < xs.len() && sweep_max(xs) == xs[i];
    assert(bounding_corners_model(ps)[1].x == ps[vx].x);
    let vy = choose|i: int| 0 <= i < ys.len() && sweep_max(ys) == ys[i];
    assert(bounding_corners_model(ps)[2].y == ps[vy].y);
}

} // verus!
