//! Geometric helpers shared by the collision pipeline: polyhedron topology
//! descriptions, polygon clipping and the separating-axis method.

pub mod geometry_traits;
pub mod helper;
pub mod sat;
