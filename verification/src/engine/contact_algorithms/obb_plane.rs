//! Box-plane contact by vertex collection: every corner below the plane
//! contributes a contact point lifted halfway back toward the plane.

use super::{CiS, ContactInformations};
use crate::engine::shapes::obb::{obb_wf, obb_world_vertex_s, ObbV, OBB};
use crate::engine::shapes::plane::{signed_distance_s, Plane, PlaneV};
use crate::fixed::{fabs, fmul, fneg, sabs, smul, Fx, SCALE};
use crate::math::vector::{
    dot_s, lemma_dot_comm, lemma_dot_negated_left, lemma_dot_vneg_right, lemma_vsub_antisym_v,
    v3_in_range, vneg_s, vscale_s, vsub_s, Vector3, V3,
};
use vstd::prelude::*;

verus! {

/// Points and least signed distance collected from the first `n` corners:
/// a corner below the plane is lifted halfway back toward the plane and
/// kept.
pub open spec fn obb_plane_fold_s(o: ObbV, pl: PlaneV, n: int) -> (Seq<V3>, int)
    decreases n,
{
    if n <= 0 {
        (Seq::empty(), 0)
    } else {
        let prev = obb_plane_fold_s(o, pl, n - 1);
        let v = obb_world_vertex_s(o, n - 1);
        let d = signed_distance_s(pl, v);
        if d < 0 {
            (
                prev.0.push(vsub_s(v, vscale_s(vscale_s(pl.normal, d), (SCALE as int) / 2))),
                if d < prev.1 {
                    d
                } else {
                    prev.1
                },
            )
        } else {
            prev
        }
    }
}

/// The box-plane contact: all corners below the plane, each lifted halfway
/// back toward it; the normal is the plane's, oriented from the box's
/// center toward the plane; the penetration is the deepest corner's
/// distance.
pub open spec fn obb_plane_contact_s(o: ObbV, pl: PlaneV) -> CiS {
    let fold = obb_plane_fold_s(o, pl, 8);
    let dc = signed_distance_s(pl, o.transform.translation);
    CiS {
        points: fold.0,
        normal_a_to_b: if dc >= 0 {
            vneg_s(pl.normal)
        } else {
            pl.normal
        },
        penetration_distance: sabs(fold.1),
    }
}

/// Contact of a box and an overlapping plane; the normal points from the
/// box's center toward the plane.
pub fn obb_plane(obb: &OBB, plane: &Plane) -> (r: ContactInformations)
    requires
        obb_wf(obb@),
    ensures
        r@ == obb_plane_contact_s(obb@, plane@),
        v3_in_range(plane@.normal) ==> dot_s(
            vsub_s(plane@.transform.translation, obb@.transform.translation),
            r@.normal_a_to_b,
        ) >= 0,
{
    let mut distance = Fx(0);
    let mut points: Vec<Vector3> = Vec::new();
    let verts = obb.transformed_vertices();

    proof {
        assert(points@.map_values(|vv: Vector3| vv@) =~= obb_plane_fold_s(obb@, plane@, 0).0);
    }
    let mut i: usize = 0;
    while i < 8
        invariant
            0 <= i <= 8,
            verts@.len() == 8,
            forall|k: int| 0 <= k < 8 ==> verts@[k]@ == obb_world_vertex_s(obb@, k),
            points@.map_values(|vv: Vector3| vv@) == obb_plane_fold_s(obb@, plane@, i as int).0,
            distance@ == obb_plane_fold_s(obb@, plane@, i as int).1,
        decreases 8 - i,
    {
        let v = verts[i];
        let d = plane.signed_distance(&v);
        proof {
            assert(v@ == obb_world_vertex_s(obb@, i as int));
            assert(d@ == signed_distance_s(plane@, obb_world_vertex_s(obb@, i as int)));
        }
        if d.0 < 0 {
            let half = Fx(SCALE / 2);
            let p = v.vsub(&plane.normal.scale(d).scale(half));
            points.push(p);
            if d.0 < distance.0 {
                distance = d;
            }
            proof {
                assert(points@.map_values(|v: Vector3| v@) =~= obb_plane_fold_s(
                    obb@,
                    plane@,
                    i as int,
                ).0.push(p@));
            }
        }
        proof {
            reveal_with_fuel(obb_plane_fold_s, 2);
            assert(points@.map_values(|vv: Vector3| vv@) =~= obb_plane_fold_s(
                obb@,
                plane@,
                i as int + 1,
            ).0);
            assert(distance@ == obb_plane_fold_s(obb@, plane@, i as int + 1).1);
        }
        i += 1;
    }

    let dc = plane.signed_distance(&obb.transform.translation);
    let normal = if dc.0 >= 0 {
        plane.normal.vneg()
    } else {
        plane.normal
    };
    let r = ContactInformations {
        points,
        normal_a_to_b: normal,
        penetration_distance: fabs(distance),
    };
    proof {
        let w = vsub_s(obb@.transform.translation, plane@.transform.translation);
        let wr = vsub_s(plane@.transform.translation, obb@.transform.translation);
        lemma_vsub_antisym_v(plane@.transform.translation, obb@.transform.translation);
        lemma_dot_negated_left(w, wr, plane@.normal);
        lemma_dot_comm(w, plane@.normal);
        lemma_dot_comm(wr, plane@.normal);
        if dc@ >= 0 && v3_in_range(plane@.normal) {
            lemma_dot_vneg_right(wr, plane@.normal);
        }
    }
    r
}

/// Corners at or above the plane contribute nothing to the fold.
proof fn lemma_obb_plane_fold_touch(o: ObbV, pl: PlaneV, n: int)
    requires
        0 <= n <= 8,
        forall|i: int|
            0 <= i < 8 ==> signed_distance_s(pl, #[trigger] obb_world_vertex_s(o, i)) >= 0,
    ensures
        obb_plane_fold_s(o, pl, n).0.len() == 0,
        obb_plane_fold_s(o, pl, n).1 == 0,
    decreases n,
{
    if n > 0 {
        lemma_obb_plane_fold_touch(o, pl, n - 1);
    }
}

/// A box that only touches the plane from above - no corner strictly
/// below it - yields a contact of penetration exactly zero, with no
/// contact points.
pub proof fn lemma_obb_plane_touch(o: ObbV, pl: PlaneV)
    requires
        forall|i: int|
            0 <= i < 8 ==> signed_distance_s(pl, #[trigger] obb_world_vertex_s(o, i)) >= 0,
    ensures
        obb_plane_contact_s(o, pl).penetration_distance == 0,
        obb_plane_contact_s(o, pl).points.len() == 0,
{
    lemma_obb_plane_fold_touch(o, pl, 8);
}

/// The index and signed distance of the corner deepest below the plane,
/// among the first `n` corners.
pub open spec fn obb_deepest_upto_s(o: ObbV, pl: PlaneV, n: int) -> (int, int)
    decreases n,
{
    if n <= 1 {
        (signed_distance_s(pl, obb_world_vertex_s(o, 0)), 0)
    } else {
        let prev = obb_deepest_upto_s(o, pl, n - 1);
        let d = signed_distance_s(pl, obb_world_vertex_s(o, n - 1));
        if d < prev.0 {
            (d, n - 1)
        } else {
            prev
        }
    }
}

/// The single deepest corner, dropped onto the plane, with its signed
/// distance and the flipped plane normal.
pub fn collision_point(obb: &OBB, plane: &Plane) -> (r: (Vector3, Fx, Vector3))
    requires
        obb_wf(obb@),
    ensures
        ({
            let best = obb_deepest_upto_s(obb@, plane@, 8);
            &&& r.1@ == best.0
            &&& r.0@ == vsub_s(
                obb_world_vertex_s(obb@, best.1),
                vscale_s(plane@.normal, best.0),
            )
            &&& r.2@ == vneg_s(plane@.normal)
        }),
{
    let obb_vertices = obb.transformed_vertices();
    let mut best_idx: usize = 0;
    let mut best_d = plane.signed_distance(&obb_vertices[0]);
    let mut i: usize = 1;
    while i < 8
        invariant
            1 <= i <= 8,
            best_idx < i,
            obb_vertices@.len() == 8,
            forall|k: int| 0 <= k < 8 ==> obb_vertices@[k]@ == obb_world_vertex_s(obb@, k),
            (best_d@, best_idx as int) == obb_deepest_upto_s(obb@, plane@, i as int),
        decreases 8 - i,
    {
        let d = plane.signed_distance(&obb_vertices[i]);
        if d.0 < best_d.0 {
            best_d = d;
            best_idx = i;
        }
        i += 1;
    }
    let projected_onto_plane = obb_vertices[best_idx].vsub(&plane.normal.scale(best_d));
    (projected_onto_plane, best_d, plane.normal.vneg())
}

} // verus!
