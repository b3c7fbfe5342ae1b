use voronoi::delaunay::{Delaunay, Triangulation};
use voronoi::geometry::{Point2D, Triangle};

fn p2(x: f64, y: f64) -> Point2D {
    Point2D::new(x.to_bits(), y.to_bits())
}

#[test]
fn new_delaunay_test() {
    let triples = [
        ((0.0, 0.0), (0.0, 10.0), (10.0, 0.0)),
        ((0.5, 1.5), (2.25, 3.0), (-1.0, 0.75)),
        ((-3.0, -3.0), (4.0, 0.0), (0.125, 9.5)),
    ];
    for &(a, b, c) in triples.iter() {
        let p1 = p2(a.0, a.1);
        let p2_ = p2(b.0, b.1);
        let p3 = p2(c.0, c.1);

        let t = Triangle::new(p1, p2_, p3);
        let d = Delaunay::new(t).unwrap();

        assert_eq!(d.domain(), t);
        assert_eq!(d.triangles(), vec![t]);
    }
}
