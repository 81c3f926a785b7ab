//! Sphere-sphere overlap.

use crate::engine::shapes::Sphere;
use crate::fixed::{fabs, fadd, fsub, sabs, sadd, ssub};
use crate::math::vector::{magnitude, vmag_s, vsub_s, V3};
use vstd::prelude::*;

verus! {

/// Two spheres overlap when their center distance does not exceed the sum
/// of the radii, yet exceeds the radii's difference (one sphere strictly
/// inside the other does not count as a collision).
pub open spec fn sphere_sphere_s(r1: int, c1: V3, r2: int, c2: V3) -> bool {
    let d = vmag_s(vsub_s(c1, c2));
    sadd(r1, r2) >= d && sabs(ssub(r1, r2)) < d
}

/// Whether two spheres overlap.
pub fn sphere_sphere(sphere_a: &Sphere, sphere_b: &Sphere) -> (r: bool)
    ensures
        r == sphere_sphere_s(
            sphere_a.radius@,
            sphere_a.position@,
            sphere_b.radius@,
            sphere_b.position@,
        ),
{
    let d = sphere_a.position.vsub(&sphere_b.position);
    let distance_a2b = magnitude(&d);
    fadd(sphere_a.radius, sphere_b.radius).0 >= distance_a2b.0 && fabs(
        fsub(sphere_a.radius, sphere_b.radius),
    ).0 < distance_a2b.0
}

} // verus!
