//! The geometric value types: points, edges, triangles and tetrahedra.
//!
//! A coordinate is the bit pattern of an IEEE-754 double, held as a
//! `u64`. Equality of points is exact equality of those bit patterns,
//! and whether a coordinate is finite is a plain test on the exponent
//! field.

use vstd::prelude::*;

verus! {

/// The exponent field of an IEEE-754 double: a coordinate whose
/// exponent bits are all set encodes an infinity or a NaN.
pub const EXPONENT_MASK: u64 = 0x7FF0_0000_0000_0000;

/// Whether the coordinate carried by the bit pattern `b` is finite,
/// that is, neither an infinity nor a NaN.
pub open spec fn finite_bits(b: u64) -> bool {
    b & EXPONENT_MASK != EXPONENT_MASK
}

/// A point in the plane; each field is the bit pattern of one
/// IEEE-754 double coordinate.
#[derive(Clone, Copy, PartialEq, Eq, Structural, Debug, Hash)]
pub struct Point2D {
    pub x: u64,
    pub y: u64,
}

impl Point2D {
    pub fn new(x: u64, y: u64) -> (r: Point2D)
        ensures
            r.x == x,
            r.y == y,
    {
        Point2D { x, y }
    }

    /// Whether both coordinates are finite.
    pub open spec fn is_finite(self) -> bool {
        finite_bits(self.x) && finite_bits(self.y)
    }

    pub fn finite(&self) -> (r: bool)
        ensures
            r == self.is_finite(),
    {
        self.x & EXPONENT_MASK != EXPONENT_MASK && self.y & EXPONENT_MASK != EXPONENT_MASK
    }
}

/// A point in space; each field is the bit pattern of one IEEE-754
/// double coordinate.
#[derive(Clone, Copy, PartialEq, Eq, Structural, Debug, Hash)]
pub struct Point3D {
    pub x: u64,
    pub y: u64,
    pub z: u64,
}

impl Point3D {
    pub fn new(x: u64, y: u64, z: u64) -> (r: Point3D)
        ensures
            r.x == x,
            r.y == y,
            r.z == z,
    {
        Point3D { x, y, z }
    }

    /// Whether all three coordinates are finite.
    pub open spec fn is_finite(self) -> bool {
        finite_bits(self.x) && finite_bits(self.y) && finite_bits(self.z)
    }

    pub fn finite(&self) -> (r: bool)
        ensures
            r == self.is_finite(),
    {
        self.x & EXPONENT_MASK != EXPONENT_MASK && self.y & EXPONENT_MASK != EXPONENT_MASK
            && self.z & EXPONENT_MASK != EXPONENT_MASK
    }
}

/// One boundary segment of a triangle; the order of `p1` and `p2`
/// encodes the segment's direction.
#[derive(Clone, Copy, PartialEq, Eq, Debug)]
pub struct Edge<P> {
    pub p1: P,
    pub p2: P,
}

impl<P> Edge<P> {
    pub fn new(p1: P, p2: P) -> (r: Edge<P>)
        ensures
            r.p1 == p1,
            r.p2 == p2,
    {
        Edge { p1, p2 }
    }
}

/// Three ordered vertices. The order encodes a winding, but the actual
/// orientation (positive or negative) is a derived property, never
/// assumed.
#[derive(Clone, Copy, PartialEq, Eq, Debug)]
pub struct Triangle<P> {
    pub p1: P,
    pub p2: P,
    pub p3: P,
}

impl<P: Copy> Triangle<P> {
    pub fn new(p1: P, p2: P, p3: P) -> (r: Triangle<P>)
        ensures
            r.p1 == p1,
            r.p2 == p2,
            r.p3 == p3,
    {
        Triangle { p1, p2, p3 }
    }

    /// The three boundary segments `(p1,p2)`, `(p2,p3)`, `(p3,p1)`, in
    /// that fixed cyclic order. The order decides which edge is
    /// reported when a located point lies on the boundary.
    pub fn edges(&self) -> (r: [Edge<P>; 3])
        ensures
            r[0].p1 == self.p1 && r[0].p2 == self.p2,
            r[1].p1 == self.p2 && r[1].p2 == self.p3,
            r[2].p1 == self.p3 && r[2].p2 == self.p1,
    {
        [
            Edge::new(self.p1, self.p2),
            Edge::new(self.p2, self.p3),
            Edge::new(self.p3, self.p1),
        ]
    }
}

/// Four ordered vertices; as with `Triangle`, the actual orientation
/// is derived, not assumed.
#[derive(Clone, Copy, PartialEq, Eq, Debug)]
pub struct Tetrahedron<P> {
    pub p1: P,
    pub p2: P,
    pub p3: P,
    pub p4: P,
}

impl<P> Tetrahedron<P> {
    pub fn new(p1: P, p2: P, p3: P, p4: P) -> (r: Tetrahedron<P>)
        ensures
            r.p1 == p1,
            r.p2 == p2,
            r.p3 == p3,
            r.p4 == p4,
    {
        Tetrahedron { p1, p2, p3, p4 }
    }
}

} // verus!
