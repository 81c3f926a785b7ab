//! Numeric constants of the simulation.

use crate::fixed::{Fx, SCALE};
use crate::math::vector::{Vector3, V3};
use vstd::prelude::*;

verus! {

/// Default time step, 1/60 s, in raw units.
pub const DELTA_TIME_RAW: i64 = 16_666_667;

/// Gravity acceleration, 9.81, in raw units.
pub const GRAVITY_ACCELERATION_RAW: i64 = 9_810_000_000;

/// Air-resistance factor applied to the force-driven velocity increment.
pub const AIR_RESISTANCE_RAW: i64 = 970_000_000;

/// Damping factor on angular impulses.
pub const ANGULAR_DAMPING_RAW: i64 = 900_000_000;

/// Bound factor on the angular share of penetration resolution.
pub const ANGULAR_PENETRATION_DISPLACEMENT_FACTOR_RAW: i64 = 200_000_000;

/// Default restitution coefficient, 0.95, in raw units.
pub const RESTITUTION_RAW: i64 = 950_000_000;

/// The default time step, 1/60 s.
pub fn delta_time() -> (r: Fx)
    ensures
        r@ == DELTA_TIME_RAW as int,
{
    Fx(DELTA_TIME_RAW)
}

/// The gravity acceleration vector (0, -9.81, 0).
pub fn gravity_vector() -> (r: Vector3)
    ensures
        r@ == (V3 { x: 0, y: -(GRAVITY_ACCELERATION_RAW as int), z: 0 }),
{
    Vector3::new(Fx(0), Fx(-GRAVITY_ACCELERATION_RAW), Fx(0))
}

/// The unit direction of gravity (0, -1, 0).
pub fn gravity_direction() -> (r: Vector3)
    ensures
        r@ == (V3 { x: 0, y: -(SCALE as int), z: 0 }),
{
    Vector3::new(Fx(0), Fx(-SCALE), Fx(0))
}

} // verus!
