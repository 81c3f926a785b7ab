//! Plane-sphere contact.

use super::{CiS, ContactInformations};
use crate::engine::shapes::plane::{signed_distance_s, Plane, PlaneV};
use crate::engine::shapes::Sphere;
use crate::fixed::{fabs, sabs};
use crate::math::vector::{
    dot_s, lemma_dot_comm, lemma_dot_vneg_right, v3_in_range, vneg_s, vscale_s, vsub_s, Vector3,
    V3,
};
use vstd::prelude::*;

verus! {

/// The single contact point of a plane and a sphere: the sphere's center
/// dropped onto the plane; the normal is the plane's, oriented toward the
/// side the sphere's center lies on; the penetration is the absolute
/// distance of the center from the plane.
pub open spec fn plane_sphere_contact_s(pl: PlaneV, c: V3) -> CiS {
    let d = signed_distance_s(pl, c);
    CiS {
        points: seq![vsub_s(c, vscale_s(pl.normal, d))],
        normal_a_to_b: if d >= 0 {
            pl.normal
        } else {
            vneg_s(pl.normal)
        },
        penetration_distance: sabs(d),
    }
}

/// Contact of a plane and an overlapping sphere; the normal points from
/// the plane toward the sphere's center.
pub fn plane_sphere(plane: &Plane, sphere: &Sphere) -> (r: ContactInformations)
    ensures
        r@ == plane_sphere_contact_s(plane@, sphere.position@),
        v3_in_range(plane@.normal) ==> dot_s(
            vsub_s(sphere.position@, plane@.transform.translation),
            r@.normal_a_to_b,
        ) >= 0,
{
    let sphere_pos = sphere.position;
    let d = plane.signed_distance(&sphere_pos);
    let p = sphere_pos.vsub(&plane.normal.scale(d));
    let normal = if d.0 >= 0 {
        plane.normal
    } else {
        plane.normal.vneg()
    };
    let mut points: Vec<Vector3> = Vec::new();
    points.push(p);
    let r = ContactInformations { points, normal_a_to_b: normal, penetration_distance: fabs(d) };
    proof {
        assert(r@.points =~= seq![p@]);
        let off = vsub_s(sphere.position@, plane@.transform.translation);
        lemma_dot_comm(off, plane@.normal);
        if d@ < 0 && v3_in_range(plane@.normal) {
            lemma_dot_vneg_right(off, plane@.normal);
        }
    }
    r
}

} // verus!
