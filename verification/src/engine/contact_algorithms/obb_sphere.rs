//! Box-sphere contact.

use super::{CiS, ContactInformations};
use crate::engine::shapes::obb::{obb_project_or_inside_s, ObbV, OBB};
use crate::engine::shapes::Sphere;
use crate::fixed::{fsub, ssub};
use crate::math::vector::{
    magnitude, normalized_s, vdivs_s, vmag_s, vsub_s, Vector3, V3,
};
use vstd::prelude::*;

verus! {

/// The single contact point of a box and a sphere, derived as for the
/// plane-sphere pair from the closest point of the box: the point is that
/// closest point, the normal runs from it toward the sphere's center (and
/// is the zero vector in the degenerate case of the center lying on it),
/// the penetration is the radius less the distance.
pub open spec fn obb_sphere_contact_s(o: ObbV, radius: int, c: V3) -> CiS {
    let p = obb_project_or_inside_s(o, c);
    let d = vsub_s(c, p);
    let dist = vmag_s(d);
    CiS {
        points: seq![p],
        normal_a_to_b: vdivs_s(d, dist),
        penetration_distance: ssub(radius, dist),
    }
}

/// Contact of a box and an overlapping sphere; the normal points from the
/// box toward the sphere.
pub fn obb_sphere(obb: &OBB, sphere: &Sphere) -> (r: ContactInformations)
    ensures
        r@ == obb_sphere_contact_s(obb@, sphere.radius@, sphere.position@),
{
    let p = obb.project_point_onto_contour_or_inside(&sphere.position);
    let d = sphere.position.vsub(&p);
    let dist = magnitude(&d);
    let n = d.divs(dist);
    let mut points: Vec<Vector3> = Vec::new();
    points.push(p);
    let r = ContactInformations {
        points,
        normal_a_to_b: n,
        penetration_distance: fsub(sphere.radius, dist),
    };
    proof {
        assert(r@.points =~= seq![p@]);
    }
    r
}

} // verus!
