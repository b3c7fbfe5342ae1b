//! Orientation and in-circle / in-sphere classification, and point
//! location against a triangle or a tetrahedron.
//!
//! The exact-arithmetic sign oracle is the `robust` crate: its adaptive
//! determinant evaluation is trusted, and everything built on top of the
//! reported signs — the sign convention, the orientation correction, the
//! decision rules — is verified.

use std::cmp::Ordering;
use std::primitive::f64 as Float64;

use vstd::prelude::*;

use crate::geometry::{Edge, Point2D, Point3D, Tetrahedron, Triangle};

verus! {

/// The sign of a determinant as the oracle reports it: the sign of a
/// double, where `NotComparable` stands for a NaN result.
#[derive(Clone, Copy, PartialEq, Eq, Structural, Debug)]
pub enum DetSign {
    Negative,
    Zero,
    Positive,
    NotComparable,
}

/// The sign of the signed-area determinant of `a`, `b`, `c`, as the
/// oracle computes it: positive for counterclockwise order, negative
/// for clockwise, zero for collinear points. The points are coordinate
/// bit patterns; the value is a fixed function of them alone.
pub uninterp spec fn orient2d_sign(a: Point2D, b: Point2D, c: Point2D) -> DetSign;

/// The sign of the in-circle determinant of `a`, `b`, `c`, `d`, as the
/// oracle computes it: for a counterclockwise triangle `a`, `b`, `c`,
/// positive when `d` is inside the circumcircle, negative outside,
/// zero when cocircular; for a clockwise triangle the sign is reversed.
pub uninterp spec fn incircle_sign(a: Point2D, b: Point2D, c: Point2D, d: Point2D) -> DetSign;

/// The sign of the signed-volume determinant of `a`, `b`, `c`, `d`, as
/// the oracle computes it: positive when `d` lies below the plane of
/// `a`, `b`, `c` (with those three counterclockwise seen from above),
/// negative above, zero for coplanar points.
pub uninterp spec fn orient3d_sign(a: Point3D, b: Point3D, c: Point3D, d: Point3D) -> DetSign;

/// The sign of the in-sphere determinant of `a`, `b`, `c`, `d`, `e`,
/// as the oracle computes it: for a positively oriented tetrahedron
/// `a`, `b`, `c`, `d`, positive when `e` is inside the circumsphere,
/// negative outside, zero when cospherical; reversed for a negatively
/// oriented one.
pub uninterp spec fn insphere_sign(a: Point3D, b: Point3D, c: Point3D, d: Point3D, e: Point3D) -> DetSign;

/// Relies on `robust::orient2d`, the exact-arithmetic signed-area
/// determinant: the coordinate bit patterns are decoded and the sign
/// of the result is classified, `NotComparable` for NaN.
#[verifier::external_body]
fn oracle_orient2d(a: Point2D, b: Point2D, c: Point2D) -> (r: DetSign)
    ensures
        r == orient2d_sign(a, b, c),
{
    let conv = |p: Point2D| robust::Coord { x: Float64::from_bits(p.x), y: Float64::from_bits(p.y) };
    let det = robust::orient2d(conv(a), conv(b), conv(c));
    match det.partial_cmp(&Float64::from_bits(0)) {
        Some(Ordering::Less) => DetSign::Negative,
        Some(Ordering::Equal) => DetSign::Zero,
        Some(Ordering::Greater) => DetSign::Positive,
        None => DetSign::NotComparable,
    }
}

/// Relies on `robust::incircle`, the exact-arithmetic in-circle
/// determinant: the coordinate bit patterns are decoded and the sign
/// of the result is classified, `NotComparable` for NaN.
#[verifier::external_body]
fn oracle_incircle(a: Point2D, b: Point2D, c: Point2D, d: Point2D) -> (r: DetSign)
    ensures
        r == incircle_sign(a, b, c, d),
{
    let conv = |p: Point2D| robust::Coord { x: Float64::from_bits(p.x), y: Float64::from_bits(p.y) };
    let det = robust::incircle(conv(a), conv(b), conv(c), conv(d));
    match det.partial_cmp(&Float64::from_bits(0)) {
        Some(Ordering::Less) => DetSign::Negative,
        Some(Ordering::Equal) => DetSign::Zero,
        Some(Ordering::Greater) => DetSign::Positive,
        None => DetSign::NotComparable,
    }
}

/// Relies on `robust::orient3d`, the exact-arithmetic signed-volume
/// determinant: the coordinate bit patterns are decoded and the sign
/// of the result is classified, `NotComparable` for NaN.
#[verifier::external_body]
fn oracle_orient3d(a: Point3D, b: Point3D, c: Point3D, d: Point3D) -> (r: DetSign)
    ensures
        r == orient3d_sign(a, b, c, d),
{
    let conv = |p: Point3D| robust::Coord3D {
        x: Float64::from_bits(p.x),
        y: Float64::from_bits(p.y),
        z: Float64::from_bits(p.z),
    };
    let det = robust::orient3d(conv(a), conv(b), conv(c), conv(d));
    match det.partial_cmp(&Float64::from_bits(0)) {
        Some(Ordering::Less) => DetSign::Negative,
        Some(Ordering::Equal) => DetSign::Zero,
        Some(Ordering::Greater) => DetSign::Positive,
        None => DetSign::NotComparable,
    }
}

/// Relies on `robust::insphere`, the exact-arithmetic in-sphere
/// determinant: the coordinate bit patterns are decoded and the sign
/// of the result is classified, `NotComparable` for NaN.
#[verifier::external_body]
fn oracle_insphere(a: Point3D, b: Point3D, c: Point3D, d: Point3D, e: Point3D) -> (r: DetSign)
    ensures
        r == insphere_sign(a, b, c, d, e),
{
    let conv = |p: Point3D| robust::Coord3D {
        x: Float64::from_bits(p.x),
        y: Float64::from_bits(p.y),
        z: Float64::from_bits(p.z),
    };
    let det = robust::insphere(conv(a), conv(b), conv(c), conv(d), conv(e));
    match det.partial_cmp(&Float64::from_bits(0)) {
        Some(Ordering::Less) => DetSign::Negative,
        Some(Ordering::Equal) => DetSign::Zero,
        Some(Ordering::Greater) => DetSign::Positive,
        None => DetSign::NotComparable,
    }
}

/// The sign a determinant takes when the simplex handed to the oracle
/// has two vertices swapped, or when the determinant is negated:
/// strict signs flip, zero and NaN stay.
pub open spec fn flip_sign(s: DetSign) -> DetSign {
    match s {
        DetSign::Negative => DetSign::Positive,
        DetSign::Zero => DetSign::Zero,
        DetSign::Positive => DetSign::Negative,
        DetSign::NotComparable => DetSign::NotComparable,
    }
}

/// Where a point lies relative to the circumcircle of a triangle or
/// the circumsphere of a tetrahedron.
#[derive(Clone, Copy, PartialEq, Eq, Structural, Debug)]
pub enum InCircleLocation {
    Inside,
    Outside,
    On,
}

/// The orientation a simplex's vertex order encodes: the sign of its
/// signed area or volume.
#[derive(Clone, Copy, PartialEq, Eq, Structural, Debug)]
pub enum Orientation {
    Positive,
    Negative,
}

impl Orientation {
    /// The other orientation.
    pub open spec fn opposite(self) -> Orientation {
        match self {
            Orientation::Positive => Orientation::Negative,
            Orientation::Negative => Orientation::Positive,
        }
    }

    /// The correction the orientation applies to a raw in-circle
    /// determinant sign: multiplying the determinant by `+1.0` for a
    /// positive orientation leaves its sign alone, and by `-1.0` for a
    /// negative one flips it.
    pub open spec fn corrected(self, s: DetSign) -> DetSign {
        match self {
            Orientation::Positive => s,
            Orientation::Negative => flip_sign(s),
        }
    }

    /// Applies `corrected` to an oracle sign.
    pub fn correct_sign(&self, s: DetSign) -> (r: DetSign)
        ensures
            r == self.corrected(s),
    {
        match self {
            Orientation::Positive => s,
            Orientation::Negative => match s {
                DetSign::Negative => DetSign::Positive,
                DetSign::Zero => DetSign::Zero,
                DetSign::Positive => DetSign::Negative,
                DetSign::NotComparable => DetSign::NotComparable,
            },
        }
    }
}

/// The orientation a raw determinant sign encodes. The inversion —
/// a strictly negative determinant maps to `Positive` — matches the
/// oracle's own convention and every downstream correction depends
/// on it. Zero (a degenerate simplex) and NaN give no orientation.
pub open spec fn det_to_orientation_spec(s: DetSign) -> Option<Orientation> {
    match s {
        DetSign::Negative => Some(Orientation::Positive),
        DetSign::Zero => None,
        DetSign::Positive => Some(Orientation::Negative),
        DetSign::NotComparable => None,
    }
}

fn det_to_orientation(s: DetSign) -> (r: Option<Orientation>)
    ensures
        r == det_to_orientation_spec(s),
{
    match s {
        DetSign::Negative => Some(Orientation::Positive),
        DetSign::Zero => None,
        DetSign::Positive => Some(Orientation::Negative),
        DetSign::NotComparable => None,
    }
}

/// Where a point lies relative to a circumcircle or circumsphere,
/// read off a sign-corrected determinant: strictly negative means
/// inside, strictly positive outside, exactly zero on it, and NaN
/// gives no answer.
pub open spec fn det_to_in_circle_location_spec(s: DetSign) -> Option<InCircleLocation> {
    match s {
        DetSign::Negative => Some(InCircleLocation::Inside),
        DetSign::Zero => Some(InCircleLocation::On),
        DetSign::Positive => Some(InCircleLocation::Outside),
        DetSign::NotComparable => None,
    }
}

fn det_to_in_circle_location(s: DetSign) -> (r: Option<InCircleLocation>)
    ensures
        r == det_to_in_circle_location_spec(s),
{
    match s {
        DetSign::Negative => Some(InCircleLocation::Inside),
        DetSign::Zero => Some(InCircleLocation::On),
        DetSign::Positive => Some(InCircleLocation::Outside),
        DetSign::NotComparable => None,
    }
}

/// The orientation of a simplex whose coordinates are all finite is
/// classified from its determinant sign; a simplex with a non-finite
/// coordinate has none.
pub open spec fn orientation_of(simplex_finite: bool, s: DetSign) -> Option<Orientation> {
    if simplex_finite {
        det_to_orientation_spec(s)
    } else {
        None
    }
}

/// A simplex whose orientation can be queried.
pub trait Orientable {
    /// Whether every coordinate of the simplex is finite.
    spec fn simplex_finite(&self) -> bool;

    /// The oracle's determinant sign for the vertices in their given
    /// order.
    spec fn simplex_sign(&self) -> DetSign;

    /// The simplex's orientation: `None` when the simplex is
    /// degenerate (zero signed measure) or any coordinate is NaN or
    /// infinite.
    fn orientation(&self) -> (r: Option<Orientation>)
        ensures
            r == orientation_of(self.simplex_finite(), self.simplex_sign()),
            !self.simplex_finite() ==> r == None::<Orientation>,
    ;
}

impl Orientable for Triangle<Point2D> {
    open spec fn simplex_finite(&self) -> bool {
        self.p1.is_finite() && self.p2.is_finite() && self.p3.is_finite()
    }

    open spec fn simplex_sign(&self) -> DetSign {
        orient2d_sign(self.p1, self.p2, self.p3)
    }

    fn orientation(&self) -> (r: Option<Orientation>) {
        if !(self.p1.finite() && self.p2.finite() && self.p3.finite()) {
            return None;
        }
        det_to_orientation(oracle_orient2d(self.p1, self.p2, self.p3))
    }
}

impl Orientable for Tetrahedron<Point3D> {
    open spec fn simplex_finite(&self) -> bool {
        self.p1.is_finite() && self.p2.is_finite() && self.p3.is_finite() && self.p4.is_finite()
    }

    open spec fn simplex_sign(&self) -> DetSign {
        orient3d_sign(self.p1, self.p2, self.p3, self.p4)
    }

    fn orientation(&self) -> (r: Option<Orientation>) {
        if !(self.p1.finite() && self.p2.finite() && self.p3.finite() && self.p4.finite()) {
            return None;
        }
        det_to_orientation(oracle_orient3d(self.p1, self.p2, self.p3, self.p4))
    }
}

/// The in-circle / in-sphere classification of a query point against
/// a simplex: `None` when the simplex has no orientation or the point
/// has a non-finite coordinate; otherwise the raw in-circle sign is
/// corrected by the orientation and classified.
pub open spec fn in_circle_of(
    o: Option<Orientation>,
    point_finite: bool,
    s: DetSign,
) -> Option<InCircleLocation> {
    match o {
        None => None,
        Some(ori) => if point_finite {
            det_to_in_circle_location_spec(ori.corrected(s))
        } else {
            None
        },
    }
}

/// A simplex against whose circumcircle or circumsphere a point can
/// be classified.
pub trait InCircleTestable<P>: Orientable {
    /// Whether every coordinate of the query point is finite.
    spec fn point_finite(&self, point: P) -> bool;

    /// The oracle's raw in-circle determinant sign for the simplex's
    /// vertices, in their given order, followed by the query point.
    spec fn in_circle_sign(&self, point: P) -> DetSign;

    /// Classifies `point` against the simplex's circumcircle or
    /// circumsphere. The raw oracle sign is corrected by the simplex's
    /// own orientation, so the answer does not depend on which winding
    /// the vertex order happens to encode. `None` when the simplex is
    /// degenerate or any coordinate involved is NaN or infinite.
    fn in_circle_test(&self, point: &P) -> (r: Option<InCircleLocation>)
        ensures
            r == in_circle_of(
                orientation_of(self.simplex_finite(), self.simplex_sign()),
                self.point_finite(*point),
                self.in_circle_sign(*point),
            ),
            !self.simplex_finite() ==> r == None::<InCircleLocation>,
            !self.point_finite(*point) ==> r == None::<InCircleLocation>,
    ;
}

impl InCircleTestable<Point2D> for Triangle<Point2D> {
    open spec fn point_finite(&self, point: Point2D) -> bool {
        point.is_finite()
    }

    open spec fn in_circle_sign(&self, point: Point2D) -> DetSign {
        incircle_sign(self.p1, self.p2, self.p3, point)
    }

    fn in_circle_test(&self, point: &Point2D) -> (r: Option<InCircleLocation>) {
        let o = match self.orientation() {
            Some(o) => o,
            None => { return None; },
        };
        if !point.finite() {
            return None;
        }
        let s = oracle_incircle(self.p1, self.p2, self.p3, *point);
        det_to_in_circle_location(o.correct_sign(s))
    }
}

impl InCircleTestable<Point3D> for Tetrahedron<Point3D> {
    open spec fn point_finite(&self, point: Point3D) -> bool {
        point.is_finite()
    }

    open spec fn in_circle_sign(&self, point: Point3D) -> DetSign {
        insphere_sign(self.p1, self.p2, self.p3, self.p4, point)
    }

    fn in_circle_test(&self, point: &Point3D) -> (r: Option<InCircleLocation>) {
        let o = match self.orientation() {
            Some(o) => o,
            None => { return None; },
        };
        if !point.finite() {
            return None;
        }
        let s = oracle_insphere(self.p1, self.p2, self.p3, self.p4, *point);
        det_to_in_circle_location(o.correct_sign(s))
    }
}

/// Orientation sign law, at the sign classifier: opposite determinant
/// signs classify to opposite orientations, and a sign with no
/// orientation (zero or NaN) still has none after a flip. Swapping two
/// vertices of a simplex negates its determinant, so this is the
/// logic's share of the law that swapping two vertices of a
/// non-degenerate simplex flips its orientation.
pub proof fn lemma_orientation_sign_law(s: DetSign)
    ensures
        det_to_orientation_spec(s) matches Some(o) ==> det_to_orientation_spec(flip_sign(s))
            == Some(o.opposite()),
        det_to_orientation_spec(s) is None ==> (det_to_orientation_spec(flip_sign(s)) is None),
{
}

/// In-circle orientation invariance, at the sign classifier:
/// correcting a flipped determinant sign by the opposite orientation
/// classifies to the same location. Reordering the vertices of a
/// fixed simplex geometry flips its orientation exactly when it flips
/// the raw in-circle determinant sign, so the orientation correction
/// makes `in_circle_test` independent of which winding the vertex
/// order encodes.
pub proof fn lemma_in_circle_orientation_invariance(o: Orientation, s: DetSign)
    ensures
        det_to_in_circle_location_spec(o.corrected(s)) == det_to_in_circle_location_spec(
            o.opposite().corrected(flip_sign(s)),
        ),
{
}

/// Orientation sign law, over any orientable simplex: two simplices
/// of the same geometry whose vertex orders differ by one swap — so
/// the oracle reports opposite determinant signs for them — have
/// opposite orientations where either is defined, and neither has an
/// orientation where not.
pub proof fn lemma_orientation_flips_with_vertex_swap<T: Orientable>(a: &T, b: &T)
    requires
        b.simplex_finite() == a.simplex_finite(),
        b.simplex_sign() == flip_sign(a.simplex_sign()),
    ensures
        orientation_of(a.simplex_finite(), a.simplex_sign()) matches Some(o)
            ==> orientation_of(b.simplex_finite(), b.simplex_sign()) == Some(o.opposite()),
        orientation_of(a.simplex_finite(), a.simplex_sign()) is None
            ==> (orientation_of(b.simplex_finite(), b.simplex_sign()) is None),
{
    lemma_orientation_sign_law(a.simplex_sign());
}

/// In-circle orientation invariance, over any testable simplex: two
/// simplices of the same geometry whose vertex orders encode opposite
/// windings — so the oracle reports opposite signs for both the
/// orientation and the raw in-circle determinant — classify every
/// query point alike. This is what makes `in_circle_test` independent
/// of the winding its input happens to encode.
pub proof fn lemma_in_circle_test_winding_invariant<P, T: InCircleTestable<P>>(a: &T, b: &T, p: P)
    requires
        b.simplex_finite() == a.simplex_finite(),
        b.simplex_sign() == flip_sign(a.simplex_sign()),
        b.point_finite(p) == a.point_finite(p),
        b.in_circle_sign(p) == flip_sign(a.in_circle_sign(p)),
    ensures
        in_circle_of(
            orientation_of(b.simplex_finite(), b.simplex_sign()),
            b.point_finite(p),
            b.in_circle_sign(p),
        ) == in_circle_of(
            orientation_of(a.simplex_finite(), a.simplex_sign()),
            a.point_finite(p),
            a.in_circle_sign(p),
        ),
{
    match det_to_orientation_spec(a.simplex_sign()) {
        Some(o) => {
            lemma_in_circle_orientation_invariance(o, a.in_circle_sign(p));
        },
        None => {},
    }
}

/// Where a query point lies relative to a triangle: inside, outside,
/// or exactly on one of its boundary edges.
#[derive(Clone, Copy, PartialEq, Eq, Debug)]
pub enum TrianglePointLocation {
    Inside,
    Outside,
    OnEdge { v: Edge<Point2D> },
}

/// Where a query point lies relative to a tetrahedron: inside,
/// outside, or exactly on the plane of one of its boundary faces.
#[derive(Clone, Copy, PartialEq, Eq, Debug)]
pub enum TetrahedronPointLocation {
    Inside,
    Outside,
    On { v: Triangle<Point3D> },
}

/// The orientation of the triangle `(a, b, p)`: which side of the
/// directed edge `a -> b` the point `p` lies on, `None` when the
/// three are collinear.
pub open spec fn edge_orientation_of(a: Point2D, b: Point2D, p: Point2D) -> Option<Orientation> {
    det_to_orientation_spec(orient2d_sign(a, b, p))
}

/// The orientation of the tetrahedron `(a, b, c, p)`: which side of
/// the face `(a, b, c)` the point `p` lies on, `None` when the four
/// are coplanar.
pub open spec fn face_orientation_of(
    a: Point3D,
    b: Point3D,
    c: Point3D,
    p: Point3D,
) -> Option<Orientation> {
    det_to_orientation_spec(orient3d_sign(a, b, c, p))
}

/// The triangle with its winding normalized to `Positive`: left alone
/// when `o` is already `Positive`, and with its second and third
/// vertex swapped otherwise.
pub open spec fn normalized_triangle(t: Triangle<Point2D>, o: Orientation) -> Triangle<Point2D> {
    if o == Orientation::Positive {
        t
    } else {
        Triangle { p1: t.p1, p2: t.p3, p3: t.p2 }
    }
}

/// The tetrahedron with its orientation normalized to `Positive`:
/// left alone when `o` is already `Positive`, and with its third and
/// fourth vertex swapped otherwise.
pub open spec fn normalized_tetrahedron(
    t: Tetrahedron<Point3D>,
    o: Orientation,
) -> Tetrahedron<Point3D> {
    if o == Orientation::Positive {
        t
    } else {
        Tetrahedron { p1: t.p1, p2: t.p2, p3: t.p4, p4: t.p3 }
    }
}

/// Point location against a triangle, as `Triangle::locate` computes
/// it: after normalizing the winding, the query point is tested
/// against each boundary edge in the fixed cyclic order; inside means
/// strictly left of every edge, outside means strictly sided against
/// every edge but not left of all, and a collinear edge test reports
/// the first such edge. A degenerate triangle, or a non-finite
/// coordinate anywhere, gives `None`.
pub open spec fn locate_in_triangle(
    t: Triangle<Point2D>,
    p: Point2D,
) -> Option<TrianglePointLocation> {
    match orientation_of(t.simplex_finite(), t.simplex_sign()) {
        None => None,
        Some(o) => if !p.is_finite() {
            None
        } else {
            let n = normalized_triangle(t, o);
            let o1 = edge_orientation_of(n.p1, n.p2, p);
            let o2 = edge_orientation_of(n.p2, n.p3, p);
            let o3 = edge_orientation_of(n.p3, n.p1, p);
            if o1 == Some(Orientation::Positive) && o2 == Some(Orientation::Positive) && o3
                == Some(Orientation::Positive) {
                Some(TrianglePointLocation::Inside)
            } else if o1 is Some && o2 is Some && o3 is Some {
                Some(TrianglePointLocation::Outside)
            } else if o1 is None {
                Some(TrianglePointLocation::OnEdge { v: Edge { p1: n.p1, p2: n.p2 } })
            } else if o2 is None {
                Some(TrianglePointLocation::OnEdge { v: Edge { p1: n.p2, p2: n.p3 } })
            } else {
                Some(TrianglePointLocation::OnEdge { v: Edge { p1: n.p3, p2: n.p1 } })
            }
        },
    }
}

/// Point location against a tetrahedron, as `Tetrahedron::locate`
/// computes it: the same rule as `locate_in_triangle`, lifted one
/// dimension, over the four boundary faces `(p1,p2,p3)`, `(p2,p4,p3)`,
/// `(p3,p4,p1)`, `(p4,p2,p1)` of the normalized tetrahedron, in that
/// fixed order.
pub open spec fn locate_in_tetrahedron(
    t: Tetrahedron<Point3D>,
    p: Point3D,
) -> Option<TetrahedronPointLocation> {
    match orientation_of(t.simplex_finite(), t.simplex_sign()) {
        None => None,
        Some(o) => if !p.is_finite() {
            None
        } else {
            let n = normalized_tetrahedron(t, o);
            let o1 = face_orientation_of(n.p1, n.p2, n.p3, p);
            let o2 = face_orientation_of(n.p2, n.p4, n.p3, p);
            let o3 = face_orientation_of(n.p3, n.p4, n.p1, p);
            let o4 = face_orientation_of(n.p4, n.p2, n.p1, p);
            if o1 == Some(Orientation::Positive) && o2 == Some(Orientation::Positive) && o3
                == Some(Orientation::Positive) && o4 == Some(Orientation::Positive) {
                Some(TetrahedronPointLocation::Inside)
            } else if o1 is Some && o2 is Some && o3 is Some && o4 is Some {
                Some(TetrahedronPointLocation::Outside)
            } else if o1 is None {
                Some(TetrahedronPointLocation::On { v: Triangle { p1: n.p1, p2: n.p2, p3: n.p3 } })
            } else if o2 is None {
                Some(TetrahedronPointLocation::On { v: Triangle { p1: n.p2, p2: n.p4, p3: n.p3 } })
            } else if o3 is None {
                Some(TetrahedronPointLocation::On { v: Triangle { p1: n.p3, p2: n.p4, p3: n.p1 } })
            } else {
                Some(TetrahedronPointLocation::On { v: Triangle { p1: n.p4, p2: n.p2, p3: n.p1 } })
            }
        },
    }
}

impl Triangle<Point2D> {
    /// Locates `p` against the triangle: inside, outside, or on the
    /// first boundary edge (in the fixed cyclic order) that `p` is
    /// collinear with. `None` when the triangle is degenerate or any
    /// coordinate involved is NaN or infinite.
    pub fn locate(&self, p: &Point2D) -> (r: Option<TrianglePointLocation>)
        ensures
            r == locate_in_triangle(*self, *p),
            !self.simplex_finite() ==> r == None::<TrianglePointLocation>,
            !p.is_finite() ==> r == None::<TrianglePointLocation>,
    {
        let o = match self.orientation() {
            Some(o) => o,
            None => { return None; },
        };
        if !p.finite() {
            return None;
        }
        // Normalize the winding so that every edge of a
        // positively-oriented triangle faces the same way.
        let t = if o == Orientation::Positive {
            *self
        } else {
            Triangle::new(self.p1, self.p3, self.p2)
        };
        let es = t.edges();
        let o1 = Triangle::new(es[0].p1, es[0].p2, *p).orientation();
        let o2 = Triangle::new(es[1].p1, es[1].p2, *p).orientation();
        let o3 = Triangle::new(es[2].p1, es[2].p2, *p).orientation();
        let all_positive = match (o1, o2, o3) {
            (
                Some(Orientation::Positive),
                Some(Orientation::Positive),
                Some(Orientation::Positive),
            ) => true,
            _ => false,
        };
        if all_positive {
            return Some(TrianglePointLocation::Inside);
        }
        if o1.is_some() && o2.is_some() && o3.is_some() {
            return Some(TrianglePointLocation::Outside);
        }
        if o1.is_none() {
            return Some(TrianglePointLocation::OnEdge { v: Edge::new(t.p1, t.p2) });
        }
        if o2.is_none() {
            return Some(TrianglePointLocation::OnEdge { v: Edge::new(t.p2, t.p3) });
        }
        Some(TrianglePointLocation::OnEdge { v: Edge::new(t.p3, t.p1) })
    }
}

impl Tetrahedron<Point3D> {
    /// Locates `p` against the tetrahedron: inside, outside, or on
    /// the first boundary face (in the fixed order) that `p` is
    /// coplanar with. `None` when the tetrahedron is degenerate or
    /// any coordinate involved is NaN or infinite.
    pub fn locate(&self, p: &Point3D) -> (r: Option<TetrahedronPointLocation>)
        ensures
            r == locate_in_tetrahedron(*self, *p),
            !self.simplex_finite() ==> r == None::<TetrahedronPointLocation>,
            !p.is_finite() ==> r == None::<TetrahedronPointLocation>,
    {
        let o = match self.orientation() {
            Some(o) => o,
            None => { return None; },
        };
        if !p.finite() {
            return None;
        }
        // Normalize the orientation so that all four faces of the
        // tetrahedron face outward consistently.
        let t = if o == Orientation::Positive {
            *self
        } else {
            Tetrahedron::new(self.p1, self.p2, self.p4, self.p3)
        };
        let o1 = Tetrahedron::new(t.p1, t.p2, t.p3, *p).orientation();
        let o2 = Tetrahedron::new(t.p2, t.p4, t.p3, *p).orientation();
        let o3 = Tetrahedron::new(t.p3, t.p4, t.p1, *p).orientation();
        let o4 = Tetrahedron::new(t.p4, t.p2, t.p1, *p).orientation();
        let all_positive = match (o1, o2, o3, o4) {
            (
                Some(Orientation::Positive),
                Some(Orientation::Positive),
                Some(Orientation::Positive),
                Some(Orientation::Positive),
            ) => true,
            _ => false,
        };
        if all_positive {
            return Some(TetrahedronPointLocation::Inside);
        }
        if o1.is_some() && o2.is_some() && o3.is_some() && o4.is_some() {
            return Some(TetrahedronPointLocation::Outside);
        }
        if o1.is_none() {
            return Some(TetrahedronPointLocation::On { v: Triangle::new(t.p1, t.p2, t.p3) });
        }
        if o2.is_none() {
            return Some(TetrahedronPointLocation::On { v: Triangle::new(t.p2, t.p4, t.p3) });
        }
        if o3.is_none() {
            return Some(TetrahedronPointLocation::On { v: Triangle::new(t.p3, t.p4, t.p1) });
        }
        Some(TetrahedronPointLocation::On { v: Triangle::new(t.p4, t.p2, t.p1) })
    }
}

} // verus!
