//! Plane-plane contact.

use super::{CiS, ContactInformations};
use crate::engine::shapes::Plane;
use crate::fixed::Fx;
use crate::math::vector::Vector3;
use vstd::prelude::*;

verus! {

/// The degenerate manifold of two overlapping planes: no isolated contact
/// points exist, so the point list is empty, the second plane's normal is
/// reported, and the penetration is zero.
pub open spec fn plane_plane_contact_s(pl2_normal: crate::math::vector::V3) -> CiS {
    CiS { points: Seq::empty(), normal_a_to_b: pl2_normal, penetration_distance: 0 }
}

/// Contact of two overlapping planes: an empty point list.
pub fn plane_plane(pl1: &Plane, pl2: &Plane) -> (r: ContactInformations)
    ensures
        r@ == plane_plane_contact_s(pl2@.normal),
{
    let points: Vec<Vector3> = Vec::new();
    let r = ContactInformations {
        points,
        normal_a_to_b: pl2.normal,
        penetration_distance: Fx(0),
    };
    proof {
        assert(r@.points =~= Seq::<crate::math::vector::V3>::empty());
    }
    r
}

} // verus!
