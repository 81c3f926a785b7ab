//! The engine proper: shapes, collision world, narrow-phase algorithms and
//! the rigid-body simulation.

pub mod collision;
pub mod contact_algorithms;
pub mod intersection_algorithms;
pub mod shapes;
pub mod simulation;
