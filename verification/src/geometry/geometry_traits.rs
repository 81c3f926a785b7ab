//! Index structures describing a polyhedron's topology.

use vstd::prelude::*;

verus! {

/// An edge, as the indices of its two end vertices.
#[derive(Clone, Copy, Debug, PartialEq, Eq, Structural)]
pub struct EdgeIndex {
    pub vi1: usize,
    pub vi2: usize,
}

/// A face, as the indices of its vertices in trigonometric order.
#[derive(Clone, Debug)]
pub struct FaceIndex {
    pub v_i: Vec<usize>,
}

/// Numbers of vertices, edges and faces of a polyhedron.
#[derive(Clone, Copy, Debug, PartialEq, Eq, Structural)]
pub struct PolyhedronSizes {
    pub vertices: usize,
    pub edges: usize,
    pub faces: usize,
}

} // verus!
