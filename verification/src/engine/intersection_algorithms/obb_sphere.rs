//! Box-sphere overlap.

use crate::engine::shapes::obb::{obb_project_or_inside_s, ObbV, OBB};
use crate::engine::shapes::Sphere;
use crate::fixed::{fmul, smul};
use crate::math::vector::{sqmag_s, squared_magnitude, vsub_s, V3};
use vstd::prelude::*;

verus! {

/// A box and a sphere overlap when the box's closest point lies within the
/// sphere's radius of the center.
pub open spec fn obb_sphere_s(o: ObbV, radius: int, c: V3) -> bool {
    sqmag_s(vsub_s(c, obb_project_or_inside_s(o, c))) <= smul(radius, radius)
}

/// Whether a box and a sphere overlap.
pub fn obb_sphere(obb: &OBB, sphere: &Sphere) -> (r: bool)
    ensures
        r == obb_sphere_s(obb@, sphere.radius@, sphere.position@),
{
    let d = sphere.position.vsub(&obb.project_point_onto_contour_or_inside(&sphere.position));
    squared_magnitude(&d).0 <= fmul(sphere.radius, sphere.radius).0
}

} // verus!
