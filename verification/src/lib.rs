//! Robust geometric predicates over 2D triangles and 3D tetrahedra:
//! orientation tests, in-circle / in-sphere classification, and point
//! location against a simplex, with exact-arithmetic sign evaluation
//! delegated to an oracle.
//!
//! Coordinates are carried as the bit patterns of IEEE-754 doubles, so
//! that the classification logic itself never computes with floating
//! point: every decision is made on the discrete sign that the oracle
//! reports.

pub mod delaunay;
pub mod geometry;
pub mod in_circle;
