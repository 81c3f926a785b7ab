//! Box-box overlap.

use crate::engine::shapes::obb::{obb_wf, ObbV, OBB};
use crate::geometry::sat::{sat_3D, sat_3d_s};
use vstd::prelude::*;

verus! {

/// Two boxes overlap exactly when the full separating-axis search (three
/// face axes of each box and the nine edge cross products) finds no
/// separating axis.
pub open spec fn obb_obb_s(o1: ObbV, o2: ObbV) -> bool {
    sat_3d_s(o1, o2) is Some
}

/// Whether two boxes overlap, by the full separating-axis search.
pub fn obb_obb(obb1: &OBB, obb2: &OBB) -> (r: bool)
    requires
        obb_wf(obb1@),
        obb_wf(obb2@),
    ensures
        r == obb_obb_s(obb1@, obb2@),
{
    sat_3D(obb1, obb2).is_some()
}

} // verus!
