//! Polygons: winding-normalized construction, perimeter, shoelace area,
//! orientation classification, and collinearity-driven vertex insertion.

use crate::errors::GeomError;
use crate::traits::distance::{distance_model, Distance};
use crate::traits::numbers::{approx_eq_model, approximately_equal, Floats, Integers};
use crate::types::ordering::PointOrder;
use crate::types::point::{point_eq_model, Point};
use crate::types::rectangle::Rectangle;
use vstd::prelude::*;

verus! {

/// An ordered sequence of at least three points, implicitly closed: the
/// last vertex connects back to the first. Construction normalizes the
/// winding from the sign of the signed area, and a polygon is never mutated
/// in place: vertex insertion returns a fresh polygon.
#[derive(Clone, Debug, PartialEq)]
pub struct Polygon<T: Floats> {
    pub vertices: Vec<Point<T>>,
}

/// The index of the far end of the edge that starts at vertex `i`: the next
/// vertex, wrapping from the last back to the first.
pub open spec fn edge_index(len: int, i: int) -> int {
    if i + 1 == len {
        0
    } else {
        i + 1
    }
}

/// One term of the shoelace sum: `x_i * y_j - x_j * y_i` for the edge from
/// vertex `i` to its cyclic successor `j`.
pub open spec fn shoelace_term<T: Integers>(vs: Seq<Point<T>>, i: int) -> T {
    let j = edge_index(vs.len() as int, i);
    T::sub_model(T::mul_model(vs[i].x, vs[j].y), T::mul_model(vs[j].x, vs[i].y))
}

/// The shoelace sum over the first `n` edges of the closed cycle, folded
/// left in edge order starting from the scalar's zero.
pub open spec fn shoelace_upto<T: Integers>(vs: Seq<Point<T>>, n: int) -> T
    decreases n,
{
    if n <= 0 {
        T::zero_model()
    } else {
        T::add_model(shoelace_upto(vs, n - 1), shoelace_term(vs, n - 1))
    }
}

/// What the signed area computes: half the shoelace sum over the closed
/// cycle. Fails when halving is not representable in the scalar type.
pub open spec fn area_model<T: Floats>(vs: Seq<Point<T>>) -> Result<T, GeomError> {
    match T::half_model(shoelace_upto(vs, vs.len() as int)) {
        Some(a) => Ok(a),
        None => Err(GeomError::ConversionFailure),
    }
}

/// The perimeter accumulated over the first `n` edges of the closed cycle:
/// distances are summed in edge order and the first failing distance step
/// is reported.
pub open spec fn perimeter_upto<T: Floats>(vs: Seq<Point<T>>, n: int) -> Result<T, GeomError>
    decreases n,
{
    if n <= 0 {
        Ok(T::zero_model())
    } else {
        match perimeter_upto(vs, n - 1) {
            Err(e) => Err(e),
            Ok(s) => match distance_model(vs[n - 1], vs[edge_index(vs.len() as int, n - 1)]) {
                Err(e) => Err(e),
                Ok(d) => Ok(T::add_model(s, d)),
            },
        }
    }
}

/// What the perimeter computes: the distance sum around the whole cycle.
pub open spec fn perimeter_model<T: Floats>(vs: Seq<Point<T>>) -> Result<T, GeomError> {
    perimeter_upto(vs, vs.len() as int)
}

/// What construction computes: fewer than three vertices or a failing area
/// step reject the polygon; a positive signed area keeps the vertex order
/// as given, any other sign reverses it into the canonical winding.
pub open spec fn new_model<T: Floats>(vs: Seq<Point<T>>) -> Result<Seq<Point<T>>, GeomError> {
    if vs.len() < 3 {
        Err(GeomError::InstantiationFailure)
    } else {
        match area_model(vs) {
            Err(_) => Err(GeomError::InstantiationFailure),
            Ok(a) => if T::lt_model(T::zero_model(), a) {
                Ok(vs)
            } else {
                Ok(vs.reverse())
            },
        }
    }
}

/// What orientation classification computes: a signed area within one
/// tolerance of being positive is labelled `Clockwise`, anything else
/// `CounterClockwise`.
pub open spec fn orientation_model<T: Floats>(vs: Seq<Point<T>>) -> Result<
    PointOrder,
    GeomError,
> {
    match area_model(vs) {
        Err(e) => Err(e),
        Ok(a) => match T::eps_model() {
            None => Err(GeomError::ConversionFailure),
            Some(eps) => if T::lt_model(T::zero_model(), T::add_model(a, eps)) {
                Ok(PointOrder::Clockwise)
            } else {
                Ok(PointOrder::CounterClockwise)
            },
        },
    }
}

/// Whether some vertex of `vs` equals `p` coordinate-wise.
pub open spec fn seq_contains_model<T: Integers>(vs: Seq<Point<T>>, p: Point<T>) -> bool {
    exists|i: int| 0 <= i < vs.len() && point_eq_model(vs[i], p)
}

/// Whether `p` falls within the axis-aligned bounds of the edge from `a` to
/// `b`, on both axes.
pub open spec fn in_bbox_model<T: Integers>(p: Point<T>, a: Point<T>, b: Point<T>) -> bool {
    ((T::le_model(a.x, p.x) && T::le_model(p.x, b.x)) || (T::le_model(p.x, a.x) && T::le_model(
        b.x,
        p.x,
    ))) && ((T::le_model(a.y, p.y) && T::le_model(p.y, b.y)) || (T::le_model(p.y, a.y)
        && T::le_model(b.y, p.y)))
}

/// Whether `p` is collinear with the edge from `a` to `b` within tolerance:
/// the distance sum `|a p| + |b p|` equals `|a b|` within epsilon. Fails
/// when the tolerance has no representation or a distance step fails.
pub open spec fn collinear_within_model<T: Floats>(
    a: Point<T>,
    b: Point<T>,
    p: Point<T>,
) -> Result<bool, GeomError> {
    match T::eps_model() {
        None => Err(GeomError::ConversionFailure),
        Some(eps) => match distance_model(a, p) {
            Err(e) => Err(e),
            Ok(d0) => match distance_model(b, p) {
                Err(e) => Err(e),
                Ok(d1) => match distance_model(a, b) {
                    Err(e) => Err(e),
                    Ok(m) => Ok(approx_eq_model(T::add_model(d0, d1), m, eps)),
                },
            },
        },
    }
}

/// The spliced vertex sequence after scanning the first `n` edges: each
/// scanned edge contributes its first vertex, followed by the candidate
/// whenever the edge's bounding box admits it and the collinearity test
/// accepts it. The flag records whether any edge accepted the candidate.
pub open spec fn spliced_upto<T: Floats>(vs: Seq<Point<T>>, p: Point<T>, n: int) -> Result<
    (Seq<Point<T>>, bool),
    GeomError,
>
    decreases n,
{
    if n <= 0 {
        Ok((Seq::<Point<T>>::empty(), false))
    } else {
        match spliced_upto(vs, p, n - 1) {
            Err(e) => Err(e),
            Ok(acc) => {
                let a = vs[n - 1];
                let b = vs[edge_index(vs.len() as int, n - 1)];
                if in_bbox_model(p, a, b) {
                    match collinear_within_model(a, b, p) {
                        Err(e) => Err(e),
                        Ok(true) => Ok((acc.0.push(a).push(p), true)),
                        Ok(false) => Ok((acc.0.push(a), acc.1)),
                    }
                } else {
                    Ok((acc.0.push(a), acc.1))
                }
            },
        }
    }
}

/// What vertex insertion computes: a candidate already present is a no-op
/// success; otherwise the closed cycle is scanned for collinear insertion
/// sites, the spliced sequence is rebuilt through full construction, and a
/// scan that found no site is a `MutationFailure`.
pub open spec fn insert_vertex_model<T: Floats>(vs: Seq<Point<T>>, p: Point<T>) -> Result<
    Seq<Point<T>>,
    GeomError,
> {
    if seq_contains_model(vs, p) {
        Ok(vs)
    } else {
        match spliced_upto(vs, p, vs.len() as int) {
            Err(e) => Err(e),
            Ok(acc) => if acc.1 {
                new_model(acc.0)
            } else {
                Err(GeomError::MutationFailure)
            },
        }
    }
}

/// A failure among the first `n` scanned edges persists through the rest of
/// the scan.
proof fn lemma_spliced_err_persists<T: Floats>(vs: Seq<Point<T>>, p: Point<T>, n: int, m: int)
    requires
        spliced_upto(vs, p, n) is Err,
        n <= m,
    ensures
        spliced_upto(vs, p, m) == spliced_upto(vs, p, n),
    decreases m,
{
    if n < m {
        lemma_spliced_err_persists(vs, p, n, m - 1);
    }
}

/// A failure among the first `n` summed edges persists through the rest of
/// the perimeter sum.
pub proof fn lemma_perimeter_err_persists<T: Floats>(vs: Seq<Point<T>>, n: int, m: int)
    requires
        perimeter_upto(vs, n) is Err,
        n <= m,
    ensures
        perimeter_upto(vs, m) == perimeter_upto(vs, n),
    decreases m,
{
    if n < m {
        lemma_perimeter_err_persists(vs, n, m - 1);
    }
}

impl<T: Floats> Polygon<T> {
    /// Create a new polygon, checking the vertex count and normalizing the
    /// winding from the sign of the signed area.
    pub fn new(vertices: Vec<Point<T>>) -> (r: Result<Self, GeomError>)
        ensures
            (r is Ok) == (new_model(vertices@) is Ok),
            r is Ok ==> r->Ok_0.vertices@ == new_model(vertices@)->Ok_0,
            r is Err ==> r->Err_0 == new_model(vertices@)->Err_0,
    {
        if vertices.len() < 3 {
            return Err(GeomError::InstantiationFailure);
        }
        let poly = Polygon { vertices };
        let area = match poly.area() {
            Ok(area) => area,
            Err(_) => {
                return Err(GeomError::InstantiationFailure);
            },
        };
        if T::zero().lt(area) {
            Ok(poly)
        } else {
            let n = poly.vertices.len();
            let mut rev: Vec<Point<T>> = Vec::new();
            let mut i: usize = 0;
            while i < n
                invariant
                    n == poly.vertices@.len(),
                    0 <= i <= n,
                    rev@.len() == i,
                    forall|k: int| 0 <= k < i ==> rev@[k] == poly.vertices@[n - 1 - k],
                decreases n - i,
            {
                rev.push(poly.vertices[n - 1 - i]);
                i = i + 1;
            }
            assert(rev@ =~= poly.vertices@.reverse());
            Ok(Polygon { vertices: rev })
        }
    }

    /// The signed area: half the shoelace sum over the closed cycle.
    pub fn area(&self) -> (r: Result<T, GeomError>)
        ensures
            r == area_model(self.vertices@),
    {
        let n = self.vertices.len();
        let mut sum = T::zero();
        let mut i: usize = 0;
        while i < n
            invariant
                n == self.vertices@.len(),
                0 <= i <= n,
                sum == shoelace_upto(self.vertices@, i as int),
            decreases n - i,
        {
            let j = if i + 1 == n {
                0
            } else {
                i + 1
            };
            let term = self.vertices[i].x.times(self.vertices[j].y).minus(
                self.vertices[j].x.times(self.vertices[i].y),
            );
            sum = sum.plus(term);
            i = i + 1;
        }
        match sum.half() {
            Some(a) => Ok(a),
            None => Err(GeomError::ConversionFailure),
        }
    }

    /// The perimeter: distances summed around the closed cycle of edges.
    pub fn perimeter(&self) -> (r: Result<T, GeomError>)
        ensures
            r == perimeter_model(self.vertices@),
    {
        let n = self.vertices.len();
        let mut sum = T::zero();
        let mut i: usize = 0;
        while i < n
            invariant
                n == self.vertices@.len(),
                0 <= i <= n,
                perimeter_upto(self.vertices@, i as int) == Ok::<T, GeomError>(sum),
            decreases n - i,
        {
            let j = if i + 1 == n {
                0
            } else {
                i + 1
            };
            let d = match self.vertices[i].distance(&self.vertices[j]) {
                Ok(d) => d,
                Err(e) => {
                    proof {
                        lemma_perimeter_err_persists(
                            self.vertices@,
                            i as int + 1,
                            self.vertices@.len() as int,
                        );
                    }
                    return Err(e);
                },
            };
            sum = sum.plus(d);
            i = i + 1;
        }
        Ok(sum)
    }

    /// Classify the winding of the vertex sequence from its signed area.
    pub fn orientation(&self) -> (r: Result<PointOrder, GeomError>)
        ensures
            r == orientation_model(self.vertices@),
    {
        let area = match self.area() {
            Ok(a) => a,
            Err(e) => {
                return Err(e);
            },
        };
        let eps = match T::eps() {
            Some(e) => e,
            None => {
                return Err(GeomError::ConversionFailure);
            },
        };
        if T::zero().lt(area.plus(eps)) {
            Ok(PointOrder::Clockwise)
        } else {
            Ok(PointOrder::CounterClockwise)
        }
    }

    /// Determine where the candidate vertex belongs on the boundary and
    /// return a fresh polygon with it inserted. A candidate already present
    /// is returned unchanged; a candidate collinear with no edge is a
    /// `MutationFailure`.
    pub fn insert_vertex(self, pt: Point<T>) -> (r: Result<Self, GeomError>)
        ensures
            (r is Ok) == (insert_vertex_model(self.vertices@, pt) is Ok),
            r is Ok ==> r->Ok_0.vertices@ == insert_vertex_model(self.vertices@, pt)->Ok_0,
            r is Err ==> r->Err_0 == insert_vertex_model(self.vertices@, pt)->Err_0,
    {
        let n = self.vertices.len();
        let mut i: usize = 0;
        while i < n
            invariant
                n == self.vertices@.len(),
                0 <= i <= n,
                forall|k: int| 0 <= k < i ==> !point_eq_model(self.vertices@[k], pt),
            decreases n - i,
        {
            if self.vertices[i].x.eqv(pt.x) && self.vertices[i].y.eqv(pt.y) {
                assert(seq_contains_model(self.vertices@, pt));
                return Ok(self);
            }
            i = i + 1;
        }
        assert(!seq_contains_model(self.vertices@, pt));

        let mut out: Vec<Point<T>> = Vec::new();
        let mut found = false;
        let mut i: usize = 0;
        while i < n
            invariant
                n == self.vertices@.len(),
                0 <= i <= n,
                !seq_contains_model(self.vertices@, pt),
                spliced_upto(self.vertices@, pt, i as int) == Ok::<(Seq<Point<T>>, bool), GeomError>(
                    (out@, found),
                ),
            decreases n - i,
        {
            let j = if i + 1 == n {
                0
            } else {
                i + 1
            };
            let a = self.vertices[i];
            let b = self.vertices[j];
            let bbox = ((a.x.le(pt.x) && pt.x.le(b.x)) || (pt.x.le(a.x) && b.x.le(pt.x))) && ((a.y.le(
                pt.y,
            ) && pt.y.le(b.y)) || (pt.y.le(a.y) && b.y.le(pt.y)));
            if bbox {
                let eps = match T::eps() {
                    Some(e) => e,
                    None => {
                        proof {
                            lemma_spliced_err_persists(self.vertices@, pt, i as int + 1, n as int);
                        }
                        return Err(GeomError::ConversionFailure);
                    },
                };
                let d0 = match a.distance(&pt) {
                    Ok(d) => d,
                    Err(e) => {
                        proof {
                            lemma_spliced_err_persists(self.vertices@, pt, i as int + 1, n as int);
                        }
                        return Err(e);
                    },
                };
                let d1 = match b.distance(&pt) {
                    Ok(d) => d,
                    Err(e) => {
                        proof {
                            lemma_spliced_err_persists(self.vertices@, pt, i as int + 1, n as int);
                        }
                        return Err(e);
                    },
                };
                let m = match a.distance(&b) {
                    Ok(d) => d,
                    Err(e) => {
                        proof {
                            lemma_spliced_err_persists(self.vertices@, pt, i as int + 1, n as int);
                        }
                        return Err(e);
                    },
                };
                let collinear = approximately_equal(d0.plus(d1), m, eps);
                out.push(a);
                if collinear {
                    out.push(pt);
                    found = true;
                }
            } else {
                out.push(a);
            }
            i = i + 1;
        }
        if found {
            Polygon::new(out)
        } else {
            Err(GeomError::MutationFailure)
        }
    }

    /// A polygon over a rectangle's four corners, in the order the
    /// rectangle stores them.
    pub fn from_rectangle(rect: Rectangle<T>) -> (r: Self)
        ensures
            r.vertices@ == rect.vertices@,
    {
        let mut vertices: Vec<Point<T>> = Vec::new();
        vertices.push(rect.vertices[0]);
        vertices.push(rect.vertices[1]);
        vertices.push(rect.vertices[2]);
        vertices.push(rect.vertices[3]);
        assert(vertices@ =~= rect.vertices@);
        Polygon { vertices }
    }
}

/// A vertex list and its reverse construct polygons over the same vertex
/// multiset: whichever winding construction settles on, it only ever keeps
/// or reverses the list it was given.
pub proof fn winding_vertex_multiset<T: Floats>(vs: Seq<Point<T>>)
    requires
        new_model(vs) is Ok,
        new_model(vs.reverse()) is Ok,
    ensures
        new_model(vs)->Ok_0.to_multiset() == new_model(vs.reverse())->Ok_0.to_multiset(),
{
    assert(vs.reverse().reverse() =~= vs);
    vs.lemma_reverse_to_multiset();
    vs.reverse().lemma_reverse_to_multiset();
}

} // verus!
