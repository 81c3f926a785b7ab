//! Plane-sphere overlap.

use crate::engine::shapes::plane::{signed_distance_s, Plane, PlaneV};
use crate::engine::shapes::Sphere;
use crate::fixed::{fabs, sabs};
use crate::math::vector::V3;
use vstd::prelude::*;

verus! {

/// A plane and a sphere overlap when the center's distance to the plane is
/// at most the radius.
pub open spec fn plane_sphere_s(pl: PlaneV, radius: int, c: V3) -> bool {
    sabs(signed_distance_s(pl, c)) <= radius
}

/// Whether a plane and a sphere overlap.
pub fn plane_sphere(plane: &Plane, sphere: &Sphere) -> (r: bool)
    ensures
        r == plane_sphere_s(plane@, sphere.radius@, sphere.position@),
{
    fabs(plane.signed_distance(&sphere.position)).0 <= sphere.radius.0
}

} // verus!
