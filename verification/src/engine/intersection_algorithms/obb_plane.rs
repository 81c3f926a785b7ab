//! Box-plane overlap.

use crate::engine::shapes::obb::{obb_contour_distance_s, ObbV, OBB};
use crate::engine::shapes::plane::{signed_distance_s, Plane, PlaneV};
use crate::fixed::{fabs, fadd, fmul, sabs};
use crate::math::vector::dot;
use vstd::prelude::*;

verus! {

/// A box and a plane overlap when the center's distance to the plane is at
/// most the box's extent along the plane normal.
pub open spec fn obb_plane_s(o: ObbV, pl: PlaneV) -> bool {
    sabs(signed_distance_s(pl, o.transform.translation)) <= obb_contour_distance_s(o, pl.normal)
}

/// Whether a box and a plane overlap (separating axis along the normal).
pub fn obb_plane(obb: &OBB, plane: &Plane) -> (r: bool)
    ensures
        r == obb_plane_s(obb@, plane@),
{
    let rotation = &obb.transform.rotation;
    let closest_distance = fadd(
        fadd(
            fmul(obb.half_side.x, fabs(dot(&plane.normal, &rotation.row(0)))),
            fmul(obb.half_side.y, fabs(dot(&plane.normal, &rotation.row(1)))),
        ),
        fmul(obb.half_side.z, fabs(dot(&plane.normal, &rotation.row(2)))),
    );
    fabs(plane.signed_distance(&obb.transform.translation)).0 <= closest_distance.0
}

} // verus!
