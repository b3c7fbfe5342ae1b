use voronoi::geometry::{Edge, Point2D, Triangle};

fn p2(x: f64, y: f64) -> Point2D {
    Point2D::new(x.to_bits(), y.to_bits())
}

#[test]
fn triangle_edges_test() {
    let triples = [
        ((0.0, 0.0), (4.5, -2.0), (3.0, 7.0)),
        ((-1.25, 0.5), (0.0, 0.0), (2.0, 2.0)),
        ((1e300, -1e300), (0.125, 3.5), (-7.0, 0.0)),
    ];
    for &(a, b, c) in triples.iter() {
        let p1 = p2(a.0, a.1);
        let p2_ = p2(b.0, b.1);
        let p3 = p2(c.0, c.1);

        let t = Triangle::new(p1, p2_, p3);
        let edges = t.edges();

        assert_eq!(edges[0], Edge::new(p1, p2_));
        assert_eq!(edges[1], Edge::new(p2_, p3));
        assert_eq!(edges[2], Edge::new(p3, p1));
    }

    // Bit-pattern equality holds even of points that carry a NaN
    // coordinate.
    let q1 = p2(f64::NAN, 0.0);
    let q2 = p2(0.0, f64::INFINITY);
    let q3 = p2(1.0, 1.0);
    let t = Triangle::new(q1, q2, q3);
    let edges = t.edges();
    assert_eq!(edges[0], Edge::new(q1, q2));
    assert_eq!(edges[1], Edge::new(q2, q3));
    assert_eq!(edges[2], Edge::new(q3, q1));
}

#[test]
fn point_equality_is_exact_bit_comparison() {
    assert_eq!(p2(1.5, -2.0), p2(1.5, -2.0));
    assert_ne!(p2(1.5, -2.0), p2(1.5, 2.0));
    // Positive and negative zero are different bit patterns.
    assert_ne!(p2(0.0, 0.0), p2(-0.0, 0.0));
}
