//! Box-box contact: face contact by Sutherland-Hodgman clipping of the
//! incident face against the reference face's sides, or edge contact by
//! closest points of the two witness edges.

use super::{CiS, ContactInformations};
use crate::engine::shapes::obb::{
    obb_edge_s, obb_face_normal_s, obb_face_s, obb_wf, obb_world_vertex_s, ObbV, OBB,
};
use crate::engine::shapes::Segment;
use crate::fixed::{Fx, SCALE};
use crate::geometry::helper::{clip, clip_one_s, seq_v3};
use crate::geometry::sat::{sat_3D, sat_3d_s, Edge, Face, SAT3DResult};
use crate::math::vector::{
    cross, cross_s, dot, dot_s, lemma_dot_comm, lemma_dot_vneg_right, normalized, normalized_s,
    vadd_s, vdivs_s, vneg_s, vsub_s, Vector3, V3,
};
use vstd::pervasive::unreached;
use vstd::prelude::*;

verus! {

/// Index and dot product of the face of `o2` whose normal is most opposed
/// to `refn`, among the first `n` faces.
pub open spec fn incident_face_upto_s(o2: ObbV, refn: V3, n: int) -> (int, int)
    decreases n,
{
    if n <= 1 {
        (0, dot_s(refn, obb_face_normal_s(o2, 0)))
    } else {
        let prev = incident_face_upto_s(o2, refn, n - 1);
        let x = dot_s(refn, obb_face_normal_s(o2, n - 1));
        if x < prev.1 {
            (n - 1, x)
        } else {
            prev
        }
    }
}

/// The mean of the four corners of reference face `f` of `o1`.
pub open spec fn ref_face_center_s(o1: ObbV, f: int) -> V3 {
    vdivs_s(
        vadd_s(
            vadd_s(
                vadd_s(
                    obb_world_vertex_s(o1, obb_face_s(f, 0)),
                    obb_world_vertex_s(o1, obb_face_s(f, 1)),
                ),
                obb_world_vertex_s(o1, obb_face_s(f, 2)),
            ),
            obb_world_vertex_s(o1, obb_face_s(f, 3)),
        ),
        4 * SCALE as int,
    )
}

/// The outward normal of side `i` of reference face `f` of `o1`:
/// perpendicular to the reference normal and the side's edge, oriented
/// outward from the reference face's center.
pub open spec fn side_normal_s(o1: ObbV, refn: V3, f: int, i: int) -> V3 {
    let v1 = obb_world_vertex_s(o1, obb_face_s(f, i));
    let v2 = obb_world_vertex_s(o1, obb_face_s(f, (i + 1) % 4));
    let sn = normalized_s(cross_s(refn, vsub_s(v1, v2)));
    if dot_s(sn, vsub_s(v1, ref_face_center_s(o1, f))) < 0 {
        vneg_s(sn)
    } else {
        sn
    }
}

/// A point list clipped against one plane.
pub open spec fn clip_seq_s(pts: Seq<V3>, n: V3, von: V3) -> Seq<V3> {
    pts.map_values(|v: V3| clip_one_s(v, n, von))
}

/// The incident points after clipping against the first `i` sides of
/// reference face `f`.
pub open spec fn face_clip_upto_s(o1: ObbV, refn: V3, f: int, pts0: Seq<V3>, i: int) -> Seq<V3>
    decreases i,
{
    if i <= 0 {
        pts0
    } else {
        clip_seq_s(
            face_clip_upto_s(o1, refn, f, pts0, i - 1),
            side_normal_s(o1, refn, f, i - 1),
            obb_world_vertex_s(o1, obb_face_s(f, i - 1)),
        )
    }
}

/// The contact points of a face contact: the incident face of `o2` clipped
/// against the four sides of the reference face of `o1`, then against the
/// reference face itself.
pub open spec fn face_contact_s(o1: ObbV, o2: ObbV, refn: V3, f: int) -> Seq<V3> {
    let adj = incident_face_upto_s(o2, refn, 6).0;
    let pts0 = Seq::new(4, |k: int| obb_world_vertex_s(o2, obb_face_s(adj, k)));
    clip_seq_s(
        face_clip_upto_s(o1, refn, f, pts0, 4),
        vneg_s(refn),
        obb_world_vertex_s(o1, obb_face_s(f, 0)),
    )
}

/// The contact points of an edge contact: the closest points of the two
/// witness edges, merged when they agree to six decimals, else their
/// midpoint.
pub open spec fn edge_contact_s(o1: ObbV, o2: ObbV, ea: int, eb: int) -> Seq<V3> {
    let e1 = obb_edge_s(ea);
    let e2 = obb_edge_s(eb);
    let pts = crate::engine::shapes::segment::closest_pts_s(
        obb_world_vertex_s(o1, e1.0),
        obb_world_vertex_s(o1, e1.1),
        obb_world_vertex_s(o2, e2.0),
        obb_world_vertex_s(o2, e2.1),
    );
    if crate::engine::shapes::segment::round6_s(pts.0)
        == crate::engine::shapes::segment::round6_s(pts.1) {
        seq![pts.0]
    } else {
        seq![vdivs_s(vadd_s(pts.0, pts.1), 2 * SCALE as int)]
    }
}

/// The full box-box contact for a successful separating-axis result: face
/// contact on the first box's best face when both face overlaps are at
/// most the best edge overlap, else edge contact.  Either way the normal
/// is canonicalized to point from the first box toward the second (for a
/// face contact, flipping to the opposite face of the pair when needed).
pub open spec fn obb_obb_contact_s(
    o1: ObbV,
    o2: ObbV,
    ra: (int, V3, int),
    rb: (int, V3, int),
    re: (int, V3, int, int),
) -> CiS {
    if ra.0 <= re.0 && rb.0 <= re.0 {
        let flip = dot_s(
            ra.1,
            vsub_s(o2.transform.translation, o1.transform.translation),
        ) < 0;
        let n = if flip { vneg_s(ra.1) } else { ra.1 };
        let f = if flip { ra.2 + 1 } else { ra.2 };
        CiS {
            points: face_contact_s(o1, o2, n, f),
            normal_a_to_b: n,
            penetration_distance: ra.0,
        }
    } else {
        let eflip = dot_s(
            re.1,
            vsub_s(o2.transform.translation, o1.transform.translation),
        ) < 0;
        CiS {
            points: edge_contact_s(o1, o2, re.2, re.3),
            normal_a_to_b: if eflip {
                vneg_s(re.1)
            } else {
                re.1
            },
            penetration_distance: re.0,
        }
    }
}

/// Contact of two overlapping boxes (the separating-axis search must have
/// succeeded); the normal points from `obb1` toward `obb2`.
#[verifier::rlimit(100)]
pub fn obb_obb(obb1: &OBB, obb2: &OBB) -> (r: ContactInformations)
    requires
        obb_wf(obb1@),
        obb_wf(obb2@),
        sat_3d_s(obb1@, obb2@) is Some,
    ensures
        (match sat_3d_s(obb1@, obb2@) {
            Option::Some(res) => r@ == obb_obb_contact_s(obb1@, obb2@, res.0, res.1, res.2),
            Option::None => false,
        }),
        dot_s(
            vsub_s(obb2@.transform.translation, obb1@.transform.translation),
            r@.normal_a_to_b,
        ) >= 0,
{
    proof {
        crate::geometry::sat::lemma_sat_3d_axis_range(obb1@, obb2@);
    }
    let sat_result = match sat_3D(obb1, obb2) {
        Some(res) => res,
        None => {
            return unreached();
        },
    };

    if sat_result.face_A.distance.0 <= sat_result.edge.distance.0
        && sat_result.face_B.distance.0 <= sat_result.edge.distance.0 {
        // Face contact, with the reference normal pointing toward obb2.
        proof {
            assert(sat_result.face_A@.face_index == 0 || sat_result.face_A@.face_index == 2
                || sat_result.face_A@.face_index == 4);
        }
        let toward_b = obb2.transform.translation.vsub(&obb1.transform.translation);
        let flip = dot(&sat_result.face_A.axis, &toward_b).0 < 0;
        let reference = Face {
            distance: sat_result.face_A.distance,
            axis: if flip {
                sat_result.face_A.axis.vneg()
            } else {
                sat_result.face_A.axis
            },
            face_index: if flip {
                sat_result.face_A.face_index + 1
            } else {
                sat_result.face_A.face_index
            },
        };
        let points = face_contact(obb1, obb2, &reference);
        let r = ContactInformations {
            points,
            normal_a_to_b: reference.axis,
            penetration_distance: reference.distance,
        };
        proof {
            let t = vsub_s(obb2@.transform.translation, obb1@.transform.translation);
            lemma_dot_comm(t, sat_result.face_A.axis@);
            if flip {
                lemma_dot_vneg_right(t, sat_result.face_A.axis@);
            }
        }
        r
    } else {
        // Edge contact.
        proof {
            crate::geometry::sat::lemma_edge_scan_bounds(obb1@, obb2@, 144);
        }
        let points = edge_contact(obb1, obb2, &sat_result.edge);
        let toward_b = obb2.transform.translation.vsub(&obb1.transform.translation);
        let eflip = dot(&sat_result.edge.axis, &toward_b).0 < 0;
        let normal = if eflip {
            sat_result.edge.axis.vneg()
        } else {
            sat_result.edge.axis
        };
        let r = ContactInformations {
            points,
            normal_a_to_b: normal,
            penetration_distance: sat_result.edge.distance,
        };
        proof {
            let t = vsub_s(obb2@.transform.translation, obb1@.transform.translation);
            lemma_dot_comm(t, sat_result.edge.axis@);
            if eflip {
                lemma_dot_vneg_right(t, sat_result.edge.axis@);
            }
        }
        r
    }
}

/// Clip the incident face of `obb2` against the sides of the reference
/// face of `obb1`, then against the reference face itself.
/// The oriented outward normal of side `s` of reference face `f`, and the
/// world vertex that the side plane passes through.
#[verifier::rlimit(100)]
fn side_plane(
    obb1: &OBB,
    reference_face_normal: &Vector3,
    f: usize,
    s: usize,
    obb1_vertices: &Vec<Vector3>,
) -> (r: (Vector3, Vector3))
    requires
        obb_wf(obb1@),
        f < 6,
        s < 4,
        obb1_vertices@.len() == 8,
        forall|j: int| 0 <= j < 8 ==> obb1_vertices@[j]@ == obb_world_vertex_s(obb1@, j),
    ensures
        r.0@ == side_normal_s(obb1@, reference_face_normal@, f as int, s as int),
        r.1@ == obb_world_vertex_s(obb1@, obb_face_s(f as int, s as int)),
{
    proof {
        assert(obb1@.faces.len() == 6);
        assert(obb1.faces@.len() == 6);
        assert(obb1@.faces[f as int] == obb1.faces@[f as int].v_i@.map_values(
            |u: usize| u as int,
        ));
        assert(obb1@.faces[f as int].len() == 4);
        assert(obb1.faces@[f as int].v_i@.len() == 4);
        assert(obb1.faces@[f as int].v_i@[s as int] as int == obb1@.faces[f as int][s as int]);
        assert(obb1.faces@[f as int].v_i@[(s + 1) as int % 4] as int == obb1@.faces[
            f as int][(s + 1) as int % 4]);
        assert(obb1@.faces[f as int][s as int] == obb_face_s(f as int, s as int));
        assert(0 <= obb_face_s(f as int, s as int) < 8);
        assert(obb1@.faces[f as int][(s + 1) as int % 4] == obb_face_s(
            f as int,
            (s + 1) as int % 4,
        ));
        assert(0 <= obb_face_s(f as int, (s + 1) as int % 4) < 8);
    }
    let vi1 = obb1.faces[f].v_i[s];
    let vi2 = obb1.faces[f].v_i[(s + 1) % 4];
    let v1 = obb1_vertices[vi1];
    let v2 = obb1_vertices[vi2];
    proof {
        assert(obb1.faces@[f as int].v_i@[1] as int == obb1@.faces[f as int][1]);
        assert(obb1.faces@[f as int].v_i@[2] as int == obb1@.faces[f as int][2]);
        assert(obb1.faces@[f as int].v_i@[3] as int == obb1@.faces[f as int][3]);
        assert(obb1.faces@[f as int].v_i@[0] as int == obb1@.faces[f as int][0]);
        assert(obb1@.faces[f as int][0] == obb_face_s(f as int, 0));
        assert(obb1@.faces[f as int][1] == obb_face_s(f as int, 1));
        assert(obb1@.faces[f as int][2] == obb_face_s(f as int, 2));
        assert(obb1@.faces[f as int][3] == obb_face_s(f as int, 3));
        assert(0 <= obb_face_s(f as int, 0) < 8 && 0 <= obb_face_s(f as int, 1) < 8 && 0
            <= obb_face_s(f as int, 2) < 8 && 0 <= obb_face_s(f as int, 3) < 8);
    }
    let fc = obb1_vertices[obb1.faces[f].v_i[0]]
        .vadd(&obb1_vertices[obb1.faces[f].v_i[1]])
        .vadd(&obb1_vertices[obb1.faces[f].v_i[2]])
        .vadd(&obb1_vertices[obb1.faces[f].v_i[3]])
        .divs(Fx(4 * SCALE));

    let mut side_normal = cross(reference_face_normal, &v1.vsub(&v2));
    crate::math::vector::normalize(&mut side_normal);
    if dot(&side_normal, &v1.vsub(&fc)).0 < 0 {
        side_normal = side_normal.vneg();
    }
    (side_normal, v1)
}

#[verifier::rlimit(100)]
#[verifier::spinoff_prover]
pub fn face_contact(obb1: &OBB, obb2: &OBB, reference_face: &Face) -> (r: Vec<Vector3>)
    requires
        obb_wf(obb1@),
        obb_wf(obb2@),
        0 <= reference_face@.face_index < 6,
    ensures
        seq_v3(r@) == face_contact_s(
            obb1@,
            obb2@,
            reference_face@.axis,
            reference_face@.face_index,
        ),
{
    let reference_face_normal = reference_face.axis;
    let obb1_vertices = obb1.transformed_vertices();
    let obb2_vertices = obb2.transformed_vertices();

    // The face of obb2 whose normal is most opposed to the reference normal.
    let mut adjacent_face_index: usize = 0;
    let mut dot_result = dot(&reference_face_normal, &obb2.face_normal(0));
    let mut i: usize = 1;
    while i < 6
        invariant
            1 <= i <= 6,
            adjacent_face_index < i,
            (adjacent_face_index as int, dot_result@) == incident_face_upto_s(
                obb2@,
                reference_face_normal@,
                i as int,
            ),
        decreases 6 - i,
    {
        let x = dot(&reference_face_normal, &obb2.face_normal(i));
        if x.0 < dot_result.0 {
            adjacent_face_index = i;
            dot_result = x;
        }
        i += 1;
    }

    // The vertices of that incident face.
    let ghost adj = adjacent_face_index as int;
    let ghost pts0 = Seq::new(4, |k: int| obb_world_vertex_s(obb2@, obb_face_s(adj, k)));
    let mut vertices_to_clip: Vec<Vector3> = Vec::new();
    let mut k: usize = 0;
    while k < 4
        invariant
            0 <= k <= 4,
            obb_wf(obb2@),
            adj == adjacent_face_index as int,
            0 <= adj < 6,
            pts0 == Seq::new(4, |kk: int| obb_world_vertex_s(obb2@, obb_face_s(adj, kk))),
            obb2_vertices@.len() == 8,
            forall|j: int| 0 <= j < 8 ==> obb2_vertices@[j]@ == obb_world_vertex_s(obb2@, j),
            seq_v3(vertices_to_clip@) =~= pts0.take(k as int),
        decreases 4 - k,
    {
        proof {
            assert(obb2@.faces.len() == 6);
            assert(obb2.faces@.len() == 6);
            assert(obb2@.faces[adj] == obb2.faces@[adj].v_i@.map_values(|u: usize| u as int));
            assert(obb2@.faces[adj].len() == 4);
            assert(obb2.faces@[adj].v_i@.len() == 4);
            assert(obb2.faces@[adj].v_i@[k as int] as int == obb2@.faces[adj][k as int]);
            assert(obb2@.faces[adj][k as int] == obb_face_s(adj, k as int));
            assert(0 <= obb_face_s(adj, k as int) < 8);
        }
        let vi = obb2.faces[adjacent_face_index].v_i[k];
        let ghost pre = vertices_to_clip@;
        vertices_to_clip.push(obb2_vertices[vi]);
        proof {
            assert(vi as int == obb_face_s(adj, k as int));
            assert(obb2_vertices@[vi as int]@ == obb_world_vertex_s(obb2@, vi as int));
            assert(pts0[k as int] == obb_world_vertex_s(obb2@, obb_face_s(adj, k as int)));
            assert(seq_v3(pre).len() == pre.len());
            assert(seq_v3(pre).len() == k as int);
            assert(pre.len() == k as int);
            assert(vertices_to_clip@ == pre.push(obb2_vertices@[vi as int]));
            assert forall|t: int| 0 <= t < k as int + 1 implies seq_v3(vertices_to_clip@)[t]
                == pts0.take(k as int + 1)[t] by {
                if t < k as int {
                    assert(vertices_to_clip@[t] == pre[t]);
                    assert(seq_v3(pre)[t] == pts0.take(k as int)[t]);
                } else {
                    assert(vertices_to_clip@[t] == obb2_vertices@[vi as int]);
                }
            }
            assert(seq_v3(vertices_to_clip@) =~= pts0.take(k as int + 1));
        }
        k += 1;
    }
    proof {
        assert(seq_v3(vertices_to_clip@) =~= pts0);
    }

    // Clip against each side of the reference face.
    let f = reference_face.face_index;
    let mut s: usize = 0;
    while s < 4
        invariant
            0 <= s <= 4,
            obb_wf(obb1@),
            f == reference_face.face_index,
            0 <= f < 6,
            reference_face_normal == reference_face.axis,
            obb1_vertices@.len() == 8,
            forall|j: int| 0 <= j < 8 ==> obb1_vertices@[j]@ == obb_world_vertex_s(obb1@, j),
            seq_v3(vertices_to_clip@) =~= face_clip_upto_s(
                obb1@,
                reference_face_normal@,
                f as int,
                pts0,
                s as int,
            ),
        decreases 4 - s,
    {
        let (side_normal, v1) = side_plane(obb1, &reference_face_normal, f, s, &obb1_vertices);
        clip(&mut vertices_to_clip, side_normal, &v1);
        proof {
            assert(seq_v3(vertices_to_clip@) =~= clip_seq_s(
                face_clip_upto_s(
                    obb1@,
                    reference_face_normal@,
                    f as int,
                    pts0,
                    s as int,
                ),
                side_normal_s(obb1@, reference_face_normal@, f as int, s as int),
                obb_world_vertex_s(obb1@, obb_face_s(f as int, s as int)),
            ));
        }
        s += 1;
    }

    // Lift what is below the reference face back onto it.
    proof {
        assert(obb1@.faces.len() == 6);
        assert(obb1.faces@.len() == 6);
        assert(obb1@.faces[f as int] == obb1.faces@[f as int].v_i@.map_values(
            |u: usize| u as int,
        ));
        assert(obb1@.faces[f as int].len() == 4);
        assert(obb1.faces@[f as int].v_i@.len() == 4);
        assert(obb1.faces@[f as int].v_i@[0] as int == obb1@.faces[f as int][0]);
        assert(obb1@.faces[f as int][0] == obb_face_s(f as int, 0));
        assert(0 <= obb_face_s(f as int, 0) < 8);
    }
    let von = obb1_vertices[obb1.faces[f].v_i[0]];
    clip(&mut vertices_to_clip, reference_face_normal.vneg(), &von);
    proof {
        assert(seq_v3(vertices_to_clip@) =~= face_contact_s(
            obb1@,
            obb2@,
            reference_face@.axis,
            reference_face@.face_index,
        ));
    }

    vertices_to_clip
}

/// The one or two closest points of the two witness edges, merged to a
/// single point or their midpoint.
#[verifier::rlimit(100)]
#[verifier::spinoff_prover]
pub fn edge_contact(obb1: &OBB, obb2: &OBB, edge: &Edge) -> (r: Vec<Vector3>)
    requires
        obb_wf(obb1@),
        obb_wf(obb2@),
        0 <= edge@.edge_a_index < 12,
        0 <= edge@.edge_b_index < 12,
    ensures
        seq_v3(r@) == edge_contact_s(obb1@, obb2@, edge@.edge_a_index, edge@.edge_b_index),
{
    proof {
        assert(obb1@.edges.len() == 12);
        assert(obb1.edges@.len() == 12);
        assert(obb2@.edges.len() == 12);
        assert(obb2.edges@.len() == 12);
        assert(obb1@.edges[edge@.edge_a_index] == (
            obb1.edges@[edge@.edge_a_index].vi1 as int,
            obb1.edges@[edge@.edge_a_index].vi2 as int,
        ));
        assert(obb2@.edges[edge@.edge_b_index] == (
            obb2.edges@[edge@.edge_b_index].vi1 as int,
            obb2.edges@[edge@.edge_b_index].vi2 as int,
        ));
        assert(obb1@.edges[edge@.edge_a_index] == obb_edge_s(edge@.edge_a_index));
        assert(0 <= obb_edge_s(edge@.edge_a_index).0 < 8);
        assert(0 <= obb_edge_s(edge@.edge_a_index).1 < 8);
        assert(obb2@.edges[edge@.edge_b_index] == obb_edge_s(edge@.edge_b_index));
        assert(0 <= obb_edge_s(edge@.edge_b_index).0 < 8);
        assert(0 <= obb_edge_s(edge@.edge_b_index).1 < 8);
    }
    let e1 = &obb1.edges[edge.edge_a_index];
    let e2 = &obb2.edges[edge.edge_b_index];
    let l1 = Segment::new(obb1.transformed_vertex(e1.vi1), obb1.transformed_vertex(e1.vi2));
    let l2 = Segment::new(obb2.transformed_vertex(e2.vi1), obb2.transformed_vertex(e2.vi2));

    let points = l1.closest_point_each_other(&l2);

    let r0 = crate::math::helper::round_n_decimal_vector(&points[0], 6);
    let r1 = crate::math::helper::round_n_decimal_vector(&points[1], 6);
    let mut out: Vec<Vector3> = Vec::new();
    if r0.x.0 == r1.x.0 && r0.y.0 == r1.y.0 && r0.z.0 == r1.z.0 {
        out.push(points[0]);
    } else {
        out.push(points[0].vadd(&points[1]).divs(Fx(2 * SCALE)));
    }
    proof {
        assert(seq_v3(out@) =~= edge_contact_s(
            obb1@,
            obb2@,
            edge@.edge_a_index,
            edge@.edge_b_index,
        ));
    }
    out
}

} // verus!
