//! A small 3D rigid-body physics engine: vectors, rotation matrices,
//! quaternions and rigid transforms; sphere / box / plane shapes with
//! separating-axis collision detection and contact generation; and an
//! impulse-based contact resolver with semi-implicit Euler integration.
//!
//! All quantities are carried as fixed-point numbers ([`fixed::Fx`]) so that
//! every arithmetic step has an exact mathematical meaning that the
//! function contracts can state and Verus can check.

pub mod custom_collections;
pub mod engine;
pub mod fixed;
pub mod geometry;
pub mod math;
