//! The triangulation container: a domain triangle and the triangles
//! of a (so far trivial) triangulation over it.

use vstd::prelude::*;

use crate::geometry::Triangle;

verus! {

/// A triangulation of a triangular domain. Freshly constructed, it
/// holds the domain triangle as its only triangle.
pub struct Delaunay<P> {
    triangles: Vec<Triangle<P>>,
    domain: Triangle<P>,
}

/// Something that can hand out the triangles it is made of.
pub trait Triangulation<P> {
    /// The triangles, as a sequence.
    spec fn triangulation(&self) -> Seq<Triangle<P>>;

    /// The triangles, in order.
    fn triangles(&self) -> (r: Vec<Triangle<P>>)
        ensures
            r@ == self.triangulation(),
    ;
}

impl<P> Delaunay<P> {
    /// The domain triangle the triangulation was built over.
    pub closed spec fn spec_domain(&self) -> Triangle<P> {
        self.domain
    }

    /// The triangles the triangulation holds.
    pub closed spec fn spec_triangles(&self) -> Seq<Triangle<P>> {
        self.triangles@
    }
}

impl<P: Copy> Delaunay<P> {
    /// A triangulation over the domain `t`, holding `t` itself as its
    /// only triangle so far.
    pub fn new(t: Triangle<P>) -> (r: Option<Delaunay<P>>)
        ensures
            r matches Some(d) && d.spec_domain() == t && d.spec_triangles() == seq![t],
    {
        let triangles = vec![t];
        let d = Delaunay { triangles, domain: t };
        proof {
            assert(d.spec_triangles() =~= seq![t]);
        }
        Some(d)
    }

    /// The domain triangle.
    pub fn domain(&self) -> (r: Triangle<P>)
        ensures
            r == self.spec_domain(),
    {
        self.domain
    }
}

impl<P: Copy> Triangulation<P> for Delaunay<P> {
    open spec fn triangulation(&self) -> Seq<Triangle<P>> {
        self.spec_triangles()
    }

    fn triangles(&self) -> (r: Vec<Triangle<P>>) {
        let mut out: Vec<Triangle<P>> = Vec::new();
        let mut i: usize = 0;
        while i < self.triangles.len()
            invariant
                i <= self.triangles@.len(),
                out@ == self.triangles@.subrange(0, i as int),
            decreases self.triangles@.len() - i,
        {
            out.push(self.triangles[i]);
            i = i + 1;
        }
        proof {
            assert(out@ =~= self.triangles@);
        }
        out
    }
}

} // verus!
