//! Boolean overlap tests for each pair of primitive shapes, and the
//! dispatch table that routes a pair of shapes to its contact routine.

pub mod intersection_wrapper;
pub mod obb;
pub mod obb_plane;
pub mod obb_sphere;
pub mod plane;
pub mod plane_sphere;
pub mod sphere;
