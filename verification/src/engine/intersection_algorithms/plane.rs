//! Plane-plane overlap.

use crate::engine::shapes::plane::{Plane, PlaneV};
use crate::fixed::{fabs, sabs, SCALE};
use crate::math::vector::{dot, dot_s};
use vstd::prelude::*;

verus! {

/// Two planes overlap unless they are parallel (normals equal or opposite,
/// unit dot product in magnitude) at different distances from the origin.
pub open spec fn plane_plane_s(p1: PlaneV, p2: PlaneV) -> bool {
    !(sabs(dot_s(p1.normal, p2.normal)) == SCALE as int && p1.distance_from_origin
        != p2.distance_from_origin)
}

/// Whether two planes overlap.
pub fn plane_plane(pl1: &Plane, pl2: &Plane) -> (r: bool)
    ensures
        r == plane_plane_s(pl1@, pl2@),
{
    if fabs(dot(&pl1.normal, &pl2.normal)).0 == SCALE && pl1.distance_from_origin.0
        != pl2.distance_from_origin.0 {
        false
    } else {
        true
    }
}

} // verus!
