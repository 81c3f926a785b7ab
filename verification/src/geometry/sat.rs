//! The separating-axis method: interval projection of vertex sets, overlap
//! of intervals, and the 2D and 3D searches for the axis of least overlap.

use crate::engine::shapes::obb::{
    obb_edge_s, obb_face_normal_s, obb_wf, obb_world_vertex_s, ObbV, OBB,
};
use crate::fixed::{Fx, MAX_RAW, SCALE};
use crate::geometry::helper::seq_v3;
use crate::math::vector::{
    cross, cross_s, dot, dot_s, magnitude, vdivs_s, vmag_s, vneg_s, vsub_s, Vector3, V3,
};
use vstd::prelude::*;

verus! {

/// Spec image of a projection interval.
pub ghost struct ProjectionS {
    pub min: int,
    pub max: int,
}

/// The interval a vertex set covers along an axis.
pub struct Projection {
    pub min: Fx,
    pub max: Fx,
}

impl View for Projection {
    type V = ProjectionS;

    open spec fn view(&self) -> ProjectionS {
        ProjectionS { min: self.min@, max: self.max@ }
    }
}

/// Spec image of a best-face candidate.
pub ghost struct FaceS {
    pub distance: int,
    pub axis: V3,
    pub face_index: int,
}

/// The best face candidate: overlap distance, axis, and face index.
pub struct Face {
    pub distance: Fx,
    pub axis: Vector3,
    pub face_index: usize,
}

impl View for Face {
    type V = FaceS;

    open spec fn view(&self) -> FaceS {
        FaceS { distance: self.distance@, axis: self.axis@, face_index: self.face_index as int }
    }
}

/// Spec image of a best edge-pair candidate.
pub ghost struct EdgeS {
    pub distance: int,
    pub axis: V3,
    pub edge_a_index: int,
    pub edge_b_index: int,
}

/// The best edge-pair candidate: overlap distance, cross axis, and the two
/// edge indices.
pub struct Edge {
    pub distance: Fx,
    pub axis: Vector3,
    pub edge_a_index: usize,
    pub edge_b_index: usize,
}

impl View for Edge {
    type V = EdgeS;

    open spec fn view(&self) -> EdgeS {
        EdgeS {
            distance: self.distance@,
            axis: self.axis@,
            edge_a_index: self.edge_a_index as int,
            edge_b_index: self.edge_b_index as int,
        }
    }
}

/// Best face of each shape in a 2D search.
#[allow(non_snake_case)]
pub struct SAT2DResult {
    pub face_A: Face,
    pub face_B: Face,
}

/// Best face of each shape and best edge pair in a 3D search.
#[allow(non_snake_case)]
pub struct SAT3DResult {
    pub face_A: Face,
    pub face_B: Face,
    pub edge: Edge,
}

/// Interval of projections of the first `n` vertices on `axis`.
pub open spec fn project_upto_s(axis: V3, vs: Seq<V3>, n: int) -> (int, int)
    decreases n,
{
    if n <= 1 {
        (dot_s(axis, vs[0]), dot_s(axis, vs[0]))
    } else {
        let prev = project_upto_s(axis, vs, n - 1);
        let x = dot_s(axis, vs[n - 1]);
        if x > prev.1 {
            (prev.0, x)
        } else if x < prev.0 {
            (x, prev.1)
        } else {
            prev
        }
    }
}

/// Interval of projections of a vertex set on `axis`.
pub open spec fn project_s(axis: V3, vs: Seq<V3>) -> (int, int) {
    project_upto_s(axis, vs, vs.len() as int)
}

/// How much two intervals overlap (0 when only touching), or nothing when
/// they are apart.
pub open spec fn overlap_s(p1: (int, int), p2: (int, int)) -> Option<int> {
    if p1.1 >= p2.0 && p2.1 >= p1.0 {
        if p1.1 > p2.1 {
            Some(crate::fixed::ssub(p2.1, p1.0))
        } else {
            Some(crate::fixed::ssub(p1.1, p2.0))
        }
    } else {
        None
    }
}

/// One step of a best-axis scan: fail on separation, otherwise keep the
/// candidate of least overlap.
pub open spec fn scan_step_s(
    vs1: Seq<V3>,
    vs2: Seq<V3>,
    axis: V3,
    idx: int,
    acc: Option<(int, V3, int)>,
) -> Option<(int, V3, int)> {
    match acc {
        Option::None => Option::None,
        Option::Some(best) => match overlap_s(project_s(axis, vs1), project_s(axis, vs2)) {
            Option::None => Option::None,
            Option::Some(x) => if x < best.0 {
                Option::Some((x, axis, idx))
            } else {
                Option::Some(best)
            },
        },
    }
}

/// Best axis among the first `n` of `axes`, or nothing if one separates.
pub open spec fn scan_axes_upto_s(vs1: Seq<V3>, vs2: Seq<V3>, axes: Seq<V3>, n: int) -> Option<
    (int, V3, int),
>
    decreases n,
{
    if n <= 0 {
        Option::Some((MAX_RAW as int, V3 { x: 0, y: 0, z: 0 }, 0))
    } else {
        scan_step_s(vs1, vs2, axes[n - 1], n - 1, scan_axes_upto_s(vs1, vs2, axes, n - 1))
    }
}

/// Once an axis separates the shapes, every longer scan also fails.
pub proof fn lemma_scan_none(vs1: Seq<V3>, vs2: Seq<V3>, axes: Seq<V3>, k1: int, k2: int)
    requires
        scan_axes_upto_s(vs1, vs2, axes, k1) is None,
        k1 <= k2,
    ensures
        scan_axes_upto_s(vs1, vs2, axes, k2) is None,
    decreases k2 - k1,
{
    if k1 < k2 {
        lemma_scan_none(vs1, vs2, axes, k1, k2 - 1);
    }
}

/// The 2D separating-axis result over two explicit axis lists.
pub open spec fn sat_2d_s(vs1: Seq<V3>, axes1: Seq<V3>, vs2: Seq<V3>, axes2: Seq<V3>) -> Option<
    ((int, V3, int), (int, V3, int)),
> {
    match scan_axes_upto_s(vs1, vs2, axes1, axes1.len() as int) {
        Option::None => Option::None,
        Option::Some(fa) => match scan_axes_upto_s(vs1, vs2, axes2, axes2.len() as int) {
            Option::None => Option::None,
            Option::Some(fb) => Option::Some((fa, fb)),
        },
    }
}

/// The projection interval of a vertex set along an axis.
pub fn project(axis: &Vector3, vertices: &Vec<Vector3>) -> (r: Projection)
    requires
        vertices@.len() >= 1,
    ensures
        (r@.min, r@.max) == project_s(axis@, seq_v3(vertices@)),
{
    let mut min = dot(axis, &vertices[0]);
    let mut max = min;
    let mut i: usize = 1;
    while i < vertices.len()
        invariant
            1 <= i <= vertices@.len(),
            (min@, max@) == project_upto_s(axis@, seq_v3(vertices@), i as int),
        decreases vertices@.len() - i,
    {
        let x = dot(axis, &vertices[i]);
        if x.0 > max.0 {
            max = x;
        } else if x.0 < min.0 {
            min = x;
        }
        i += 1;
    }
    Projection { min, max }
}

/// How much two intervals overlap (0 when touching), or nothing when apart.
pub fn overlapping_or_touching(p1: &Projection, p2: &Projection) -> (r: Option<Fx>)
    ensures
        (match r {
            Option::Some(x) => overlap_s((p1@.min, p1@.max), (p2@.min, p2@.max)) == Option::Some(
                x@,
            ),
            Option::None => overlap_s((p1@.min, p1@.max), (p2@.min, p2@.max)) is None,
        }),
{
    if p1.max.0 >= p2.min.0 && p2.max.0 >= p1.min.0 {
        if p1.max.0 > p2.max.0 {
            Some(crate::fixed::fsub(p2.max, p1.min))
        } else {
            Some(crate::fixed::fsub(p1.max, p2.min))
        }
    } else {
        None
    }
}

/// Smallest projection of `to_points - from_point` on `normal`, with the
/// index where it is reached.
pub open spec fn closest_projection_vec_upto_s(
    normal: V3,
    pts: Seq<V3>,
    from: V3,
    n: int,
) -> (int, int)
    decreases n,
{
    if n <= 0 {
        (MAX_RAW as int, 0)
    } else {
        let prev = closest_projection_vec_upto_s(normal, pts, from, n - 1);
        let x = dot_s(normal, vsub_s(pts[n - 1], from));
        if x < prev.0 {
            (x, n - 1)
        } else {
            prev
        }
    }
}

/// The smallest projection of the vectors from `from_point` to `to_points`
/// on `normal`, with its index.
pub fn closest_projection_vec(normal: &Vector3, to_points: &Vec<Vector3>, from_point: &Vector3)
    -> (r: (Fx, usize))
    ensures
        (r.0@, r.1 as int) == closest_projection_vec_upto_s(
            normal@,
            seq_v3(to_points@),
            from_point@,
            to_points@.len() as int,
        ),
{
    let mut smallest_distance = Fx(MAX_RAW);
    let mut closest_point_index: usize = 0;
    let mut i: usize = 0;
    while i < to_points.len()
        invariant
            0 <= i <= to_points@.len(),
            (smallest_distance@, closest_point_index as int) == closest_projection_vec_upto_s(
                normal@,
                seq_v3(to_points@),
                from_point@,
                i as int,
            ),
        decreases to_points@.len() - i,
    {
        let v = to_points[i].vsub(from_point);
        let x = dot(normal, &v);
        if x.0 < smallest_distance.0 {
            smallest_distance = x;
            closest_point_index = i;
        }
        i += 1;
    }
    (smallest_distance, closest_point_index)
}

/// The 2D separating-axis search over two vertex sets and their axis lists.
#[allow(non_snake_case)]
#[verifier::rlimit(100)]
pub fn sat_2D(
    shape1_vertices: &Vec<Vector3>,
    axis_shape1: &Vec<Vector3>,
    shape2_vertices: &Vec<Vector3>,
    axis_shape2: &Vec<Vector3>,
) -> (r: Option<SAT2DResult>)
    requires
        shape1_vertices@.len() >= 1,
        shape2_vertices@.len() >= 1,
    ensures
        (match r {
            Option::Some(res) => sat_2d_s(
                seq_v3(shape1_vertices@),
                seq_v3(axis_shape1@),
                seq_v3(shape2_vertices@),
                seq_v3(axis_shape2@),
            ) == Option::Some(
                (
                    (res.face_A@.distance, res.face_A@.axis, res.face_A@.face_index),
                    (res.face_B@.distance, res.face_B@.axis, res.face_B@.face_index),
                ),
            ),
            Option::None => sat_2d_s(
                seq_v3(shape1_vertices@),
                seq_v3(axis_shape1@),
                seq_v3(shape2_vertices@),
                seq_v3(axis_shape2@),
            ) is None,
        }),
{
    let mut distance = Fx(MAX_RAW);
    let mut best_axis = Vector3::zeros();
    let mut idx_best_axis: usize = 0;

    let mut a: usize = 0;
    while a < axis_shape1.len()
        invariant
            shape1_vertices@.len() >= 1,
            shape2_vertices@.len() >= 1,
            0 <= a <= axis_shape1@.len(),
            scan_axes_upto_s(
                seq_v3(shape1_vertices@),
                seq_v3(shape2_vertices@),
                seq_v3(axis_shape1@),
                a as int,
            ) == Option::Some((distance@, best_axis@, idx_best_axis as int)),
        decreases axis_shape1@.len() - a,
    {
        let axis = axis_shape1[a];
        let proj1 = project(&axis, shape1_vertices);
        let proj2 = project(&axis, shape2_vertices);
        match overlapping_or_touching(&proj1, &proj2) {
            Some(x) => {
                if x.0 < distance.0 {
                    distance = x;
                    best_axis = axis;
                    idx_best_axis = a;
                }
            },
            None => {
                proof {
                    lemma_scan_none(
                        seq_v3(shape1_vertices@),
                        seq_v3(shape2_vertices@),
                        seq_v3(axis_shape1@),
                        a as int + 1,
                        axis_shape1@.len() as int,
                    );
                }
                return None;
            },
        }
        a += 1;
    }
    let face_a = Face { distance, axis: best_axis, face_index: idx_best_axis };

    let mut distance = Fx(MAX_RAW);
    let mut best_axis = Vector3::zeros();
    let mut idx_best_axis: usize = 0;
    let mut a: usize = 0;
    while a < axis_shape2.len()
        invariant
            shape1_vertices@.len() >= 1,
            shape2_vertices@.len() >= 1,
            0 <= a <= axis_shape2@.len(),
            scan_axes_upto_s(
                seq_v3(shape1_vertices@),
                seq_v3(shape2_vertices@),
                seq_v3(axis_shape2@),
                a as int,
            ) == Option::Some((distance@, best_axis@, idx_best_axis as int)),
        decreases axis_shape2@.len() - a,
    {
        let axis = axis_shape2[a];
        let proj1 = project(&axis, shape1_vertices);
        let proj2 = project(&axis, shape2_vertices);
        match overlapping_or_touching(&proj1, &proj2) {
            Some(x) => {
                if x.0 < distance.0 {
                    distance = x;
                    best_axis = axis;
                    idx_best_axis = a;
                }
            },
            None => {
                proof {
                    lemma_scan_none(
                        seq_v3(shape1_vertices@),
                        seq_v3(shape2_vertices@),
                        seq_v3(axis_shape2@),
                        a as int + 1,
                        axis_shape2@.len() as int,
                    );
                }
                return None;
            },
        }
        a += 1;
    }
    let face_b = Face { distance, axis: best_axis, face_index: idx_best_axis };

    Some(SAT2DResult { face_A: face_a, face_B: face_b })
}

/// What one edge pair contributes to the cross-axis scan.
pub ghost enum EdgeCase {
    /// The cross product vanished; the pair is skipped.
    Skip,
    /// The projections are apart; the shapes are separated.
    Separated,
    /// A candidate axis with its overlap distance.
    Cand(int, V3),
}

/// The eight world corners of a box.
pub open spec fn obb_world_verts_s(o: ObbV) -> Seq<V3> {
    Seq::new(8, |i: int| obb_world_vertex_s(o, i))
}

/// The outcome of testing the cross of edge `i` of `a` with edge `j` of
/// `b`: skipped, separating, or a candidate of the given overlap.
#[verifier::opaque]
pub open spec fn edge_case_s(a: ObbV, b: ObbV, i: int, j: int) -> EdgeCase {
    let e1 = obb_edge_s(i);
    let e2 = obb_edge_s(j);
    let da = vsub_s(obb_world_vertex_s(a, e1.0), obb_world_vertex_s(a, e1.1));
    let db = vsub_s(obb_world_vertex_s(b, e2.0), obb_world_vertex_s(b, e2.1));
    let cr = cross_s(da, db);
    let norm = vmag_s(cr);
    if norm == 0 {
        EdgeCase::Skip
    } else {
        let cu = vdivs_s(cr, norm);
        let rel = vsub_s(obb_world_vertex_s(a, e1.0), a.transform.translation);
        let cu2 = if dot_s(cu, rel) < 0 {
            vneg_s(cu)
        } else {
            cu
        };
        match overlap_s(
            project_s(cu2, obb_world_verts_s(a)),
            project_s(cu2, obb_world_verts_s(b)),
        ) {
            Option::None => EdgeCase::Separated,
            Option::Some(x) => EdgeCase::Cand(x, cu2),
        }
    }
}

/// Best cross axis among the first `k` of the 144 edge pairs, in row-major
/// order of (edge of `a`, edge of `b`); nothing if a pair separates.
pub open spec fn edge_scan_s(a: ObbV, b: ObbV, k: int) -> Option<(int, V3, int, int)>
    decreases k,
{
    if k <= 0 {
        Option::Some((MAX_RAW as int, V3 { x: 0, y: 0, z: 0 }, 0, 0))
    } else {
        match edge_scan_s(a, b, k - 1) {
            Option::None => Option::None,
            Option::Some(acc) => match edge_case_s(a, b, (k - 1) / 12, (k - 1) % 12) {
                EdgeCase::Skip => Option::Some(acc),
                EdgeCase::Separated => Option::None,
                EdgeCase::Cand(x, ax) => if x < acc.0 {
                    Option::Some((x, ax, (k - 1) / 12, (k - 1) % 12))
                } else {
                    Option::Some(acc)
                },
            },
        }
    }
}

/// A successful edge scan names edges of the twelve-edge topology.
pub proof fn lemma_edge_scan_bounds(a: ObbV, b: ObbV, k: int)
    requires
        k <= 144,
    ensures
        (match edge_scan_s(a, b, k) {
            Option::Some(acc) => 0 <= acc.2 < 12 && 0 <= acc.3 < 12,
            Option::None => true,
        }),
    decreases k,
{
    if k > 0 {
        lemma_edge_scan_bounds(a, b, k - 1);
    }
}

/// Once an edge pair separates the shapes, every longer scan also fails.
proof fn lemma_edge_scan_none(a: ObbV, b: ObbV, k1: int, k2: int)
    requires
        edge_scan_s(a, b, k1) is None,
        k1 <= k2,
    ensures
        edge_scan_s(a, b, k2) is None,
    decreases k2 - k1,
{
    if k1 < k2 {
        lemma_edge_scan_none(a, b, k1, k2 - 1);
    }
}

/// Every face normal of a box is a clipped difference, hence
/// representable.
pub proof fn lemma_face_normal_range(o: ObbV, f: int)
    ensures
        crate::math::vector::v3_in_range(obb_face_normal_s(o, f)),
{
}

/// One scan step keeps the best axis representable when the candidate and
/// the accumulator's axis are.
pub proof fn lemma_scan_step_axis_range(
    vs1: Seq<V3>,
    vs2: Seq<V3>,
    axis: V3,
    idx: int,
    acc: Option<(int, V3, int)>,
)
    requires
        (match acc {
            Option::Some(best) => crate::math::vector::v3_in_range(best.1),
            Option::None => true,
        }),
        crate::math::vector::v3_in_range(axis),
    ensures
        (match scan_step_s(vs1, vs2, axis, idx, acc) {
            Option::Some(r) => crate::math::vector::v3_in_range(r.1),
            Option::None => true,
        }),
{
}

/// An edge-pair candidate axis is a clipped quotient, possibly flipped,
/// hence representable.
#[verifier::rlimit(100)]
pub proof fn lemma_edge_case_axis_range(a: ObbV, b: ObbV, i: int, j: int)
    ensures
        (match edge_case_s(a, b, i, j) {
            EdgeCase::Cand(x, ax) => crate::math::vector::v3_in_range(ax),
            _ => true,
        }),
{
    reveal(edge_case_s);
}

/// A successful edge scan returns a representable axis.
pub proof fn lemma_edge_scan_axis_range(a: ObbV, b: ObbV, k: int)
    ensures
        (match edge_scan_s(a, b, k) {
            Option::Some(acc) => crate::math::vector::v3_in_range(acc.1),
            Option::None => true,
        }),
    decreases k,
{
    if k > 0 {
        lemma_edge_scan_axis_range(a, b, k - 1);
        lemma_edge_case_axis_range(a, b, (k - 1) / 12, (k - 1) % 12);
    }
}

/// A successful 3D scan returns representable best axes: every candidate
/// face normal is a clipped difference, every edge axis a clipped
/// quotient.
#[verifier::rlimit(100)]
pub proof fn lemma_sat_3d_axis_range(a: ObbV, b: ObbV)
    ensures
        (match sat_3d_s(a, b) {
            Option::Some(res) => crate::math::vector::v3_in_range(res.0.1)
                && crate::math::vector::v3_in_range(res.1.1)
                && crate::math::vector::v3_in_range(res.2.1),
            Option::None => true,
        }),
{
    let va = obb_world_verts_s(a);
    let vb = obb_world_verts_s(b);
    let init = Option::Some((MAX_RAW as int, V3 { x: 0, y: 0, z: 0 }, 0int));
    lemma_face_normal_range(a, 0);
    lemma_face_normal_range(a, 2);
    lemma_face_normal_range(a, 4);
    lemma_face_normal_range(b, 0);
    lemma_face_normal_range(b, 2);
    lemma_face_normal_range(b, 4);
    let a0 = scan_step_s(va, vb, obb_face_normal_s(a, 0), 0, init);
    lemma_scan_step_axis_range(va, vb, obb_face_normal_s(a, 0), 0, init);
    let a2 = scan_step_s(va, vb, obb_face_normal_s(a, 2), 2, a0);
    lemma_scan_step_axis_range(va, vb, obb_face_normal_s(a, 2), 2, a0);
    lemma_scan_step_axis_range(va, vb, obb_face_normal_s(a, 4), 4, a2);
    let b0 = scan_step_s(va, vb, obb_face_normal_s(b, 0), 0, init);
    lemma_scan_step_axis_range(va, vb, obb_face_normal_s(b, 0), 0, init);
    let b2 = scan_step_s(va, vb, obb_face_normal_s(b, 2), 2, b0);
    lemma_scan_step_axis_range(va, vb, obb_face_normal_s(b, 2), 2, b0);
    lemma_scan_step_axis_range(va, vb, obb_face_normal_s(b, 4), 4, b2);
    lemma_edge_scan_axis_range(a, b, 144);
}

/// The full 3D separating-axis result for two boxes: best face of each, and
/// best edge cross axis, or nothing as soon as one axis separates.
pub open spec fn sat_3d_s(a: ObbV, b: ObbV) -> Option<
    ((int, V3, int), (int, V3, int), (int, V3, int, int)),
> {
    let va = obb_world_verts_s(a);
    let vb = obb_world_verts_s(b);
    let init = Option::Some((MAX_RAW as int, V3 { x: 0, y: 0, z: 0 }, 0int));
    let fa = scan_step_s(
        va,
        vb,
        obb_face_normal_s(a, 4),
        4,
        scan_step_s(
            va,
            vb,
            obb_face_normal_s(a, 2),
            2,
            scan_step_s(va, vb, obb_face_normal_s(a, 0), 0, init),
        ),
    );
    let fb = scan_step_s(
        va,
        vb,
        obb_face_normal_s(b, 4),
        4,
        scan_step_s(
            va,
            vb,
            obb_face_normal_s(b, 2),
            2,
            scan_step_s(va, vb, obb_face_normal_s(b, 0), 0, init),
        ),
    );
    match fa {
        Option::None => Option::None,
        Option::Some(ra) => match fb {
            Option::None => Option::None,
            Option::Some(rb) => match edge_scan_s(a, b, 144) {
                Option::None => Option::None,
                Option::Some(re) => Option::Some((ra, rb, re)),
            },
        },
    }
}

/// One edge-pair test of the 3D search: nothing for a skipped pair (the
/// cross product vanished), `Some(None)` when the axis separates, and the
/// candidate axis with its overlap otherwise.
#[verifier::rlimit(100)]
fn edge_candidate(
    shape_a: &OBB,
    shape_b: &OBB,
    vertices_a: &Vec<Vector3>,
    vertices_b: &Vec<Vector3>,
    i: usize,
    j: usize,
) -> (r: Option<Option<(Fx, Vector3)>>)
    requires
        obb_wf(shape_a@),
        obb_wf(shape_b@),
        i < 12,
        j < 12,
        vertices_a@.len() == 8,
        vertices_b@.len() == 8,
        forall|m: int| 0 <= m < 8 ==> vertices_a@[m]@ == obb_world_vertex_s(shape_a@, m),
        forall|m: int| 0 <= m < 8 ==> vertices_b@[m]@ == obb_world_vertex_s(shape_b@, m),
        seq_v3(vertices_a@) == obb_world_verts_s(shape_a@),
        seq_v3(vertices_b@) == obb_world_verts_s(shape_b@),
    ensures
        (match edge_case_s(shape_a@, shape_b@, i as int, j as int) {
            EdgeCase::Skip => r is None,
            EdgeCase::Separated => r == Some(None::<(Fx, Vector3)>),
            EdgeCase::Cand(x, ax) => {
                &&& r is Some
                &&& r->Some_0 is Some
                &&& r->Some_0->Some_0.0@ == x
                &&& r->Some_0->Some_0.1@ == ax
            },
        }),
{
    proof {
        reveal(edge_case_s);
        assert(shape_a@.edges.len() == 12);
        assert(shape_a.edges@.len() == 12);
        assert(shape_b@.edges.len() == 12);
        assert(shape_b.edges@.len() == 12);
        assert(shape_a@.edges[i as int] == (
            shape_a.edges@[i as int].vi1 as int,
            shape_a.edges@[i as int].vi2 as int,
        ));
        assert(shape_b@.edges[j as int] == (
            shape_b.edges@[j as int].vi1 as int,
            shape_b.edges@[j as int].vi2 as int,
        ));
        assert(shape_a@.edges[i as int] == obb_edge_s(i as int));
        assert(0 <= obb_edge_s(i as int).0 < 8 && 0 <= obb_edge_s(i as int).1 < 8);
        assert(shape_b@.edges[j as int] == obb_edge_s(j as int));
        assert(0 <= obb_edge_s(j as int).0 < 8 && 0 <= obb_edge_s(j as int).1 < 8);
    }
    let e1 = &shape_a.edges[i];
    let e2 = &shape_b.edges[j];
    let direction_edge_a = vertices_a[e1.vi1].vsub(&vertices_a[e1.vi2]);
    let direction_edge_b = vertices_b[e2.vi1].vsub(&vertices_b[e2.vi2]);

    let c = cross(&direction_edge_a, &direction_edge_b);
    let norm = magnitude(&c);

    if norm.0 == 0 {
        return None;
    }
    let mut cu = c.divs(norm);
    let rel = vertices_a[e1.vi1].vsub(&shape_a.transform.position());
    if dot(&cu, &rel).0 < 0 {
        cu = cu.vneg();
    }
    let p1 = project(&cu, vertices_a);
    let p2 = project(&cu, vertices_b);
    match overlapping_or_touching(&p1, &p2) {
        Some(x) => Some(Some((x, cu))),
        None => Some(None),
    }
}

/// One face-axis step of the 3D search.
fn sat_face_step(
    va: &Vec<Vector3>,
    vb: &Vec<Vector3>,
    axis: Vector3,
    f: usize,
    acc: (Fx, Vector3, usize),
) -> (r: Option<(Fx, Vector3, usize)>)
    requires
        va@.len() >= 1,
        vb@.len() >= 1,
    ensures
        (match r {
            Option::Some(b) => scan_step_s(
                seq_v3(va@),
                seq_v3(vb@),
                axis@,
                f as int,
                Option::Some((acc.0@, acc.1@, acc.2 as int)),
            ) == Option::Some((b.0@, b.1@, b.2 as int)),
            Option::None => scan_step_s(
                seq_v3(va@),
                seq_v3(vb@),
                axis@,
                f as int,
                Option::Some((acc.0@, acc.1@, acc.2 as int)),
            ) is None,
        }),
{
    let proj1 = project(&axis, va);
    let proj2 = project(&axis, vb);
    match overlapping_or_touching(&proj1, &proj2) {
        Some(x) => {
            if x.0 < acc.0.0 {
                Some((x, axis, f))
            } else {
                Some(acc)
            }
        },
        None => None,
    }
}

/// The 3D separating-axis search over two boxes: the three unique face
/// normals of each, then the 144 edge crosses.
#[allow(non_snake_case)]
#[verifier::rlimit(100)]
pub fn sat_3D(shape_A: &OBB, shape_B: &OBB) -> (r: Option<SAT3DResult>)
    requires
        obb_wf(shape_A@),
        obb_wf(shape_B@),
    ensures
        (match r {
            Option::Some(res) => sat_3d_s(shape_A@, shape_B@) == Option::Some(
                (
                    (res.face_A@.distance, res.face_A@.axis, res.face_A@.face_index),
                    (res.face_B@.distance, res.face_B@.axis, res.face_B@.face_index),
                    (
                        res.edge@.distance,
                        res.edge@.axis,
                        res.edge@.edge_a_index,
                        res.edge@.edge_b_index,
                    ),
                ),
            ),
            Option::None => sat_3d_s(shape_A@, shape_B@) is None,
        }),
{
    let vertices_a = shape_A.transformed_vertices();
    let vertices_b = shape_B.transformed_vertices();
    proof {
        assert(seq_v3(vertices_a@) =~= obb_world_verts_s(shape_A@));
        assert(seq_v3(vertices_b@) =~= obb_world_verts_s(shape_B@));
    }

    let init = (Fx(MAX_RAW), Vector3::zeros(), 0usize);

    // Face normals of A.
    let s0 = match sat_face_step(&vertices_a, &vertices_b, shape_A.face_normal(0), 0, init) {
        Some(acc) => acc,
        None => {
            return None;
        },
    };
    let s2 = match sat_face_step(&vertices_a, &vertices_b, shape_A.face_normal(2), 2, s0) {
        Some(acc) => acc,
        None => {
            return None;
        },
    };
    let best_face_a = match sat_face_step(&vertices_a, &vertices_b, shape_A.face_normal(4), 4, s2)
        {
        Some(acc) => acc,
        None => {
            return None;
        },
    };

    // Face normals of B.
    let t0 = match sat_face_step(&vertices_a, &vertices_b, shape_B.face_normal(0), 0, init) {
        Some(acc) => acc,
        None => {
            return None;
        },
    };
    let t2 = match sat_face_step(&vertices_a, &vertices_b, shape_B.face_normal(2), 2, t0) {
        Some(acc) => acc,
        None => {
            return None;
        },
    };
    let best_face_b = match sat_face_step(&vertices_a, &vertices_b, shape_B.face_normal(4), 4, t2)
        {
        Some(acc) => acc,
        None => {
            return None;
        },
    };

    // Cross products between the edges of A and B.
    let mut best_d = Fx(MAX_RAW);
    let mut best_axis = Vector3::zeros();
    let mut best_ea: usize = 0;
    let mut best_eb: usize = 0;
    let mut k: usize = 0;
    while k < 144
        invariant
            0 <= k <= 144,
            obb_wf(shape_A@),
            obb_wf(shape_B@),
            vertices_a@.len() == 8,
            vertices_b@.len() == 8,
            forall|j: int| 0 <= j < 8 ==> vertices_a@[j]@ == obb_world_vertex_s(shape_A@, j),
            forall|j: int| 0 <= j < 8 ==> vertices_b@[j]@ == obb_world_vertex_s(shape_B@, j),
            seq_v3(vertices_a@) == obb_world_verts_s(shape_A@),
            seq_v3(vertices_b@) == obb_world_verts_s(shape_B@),
            edge_scan_s(shape_A@, shape_B@, k as int) == Option::Some(
                (best_d@, best_axis@, best_ea as int, best_eb as int),
            ),
        decreases 144 - k,
    {
        let i = k / 12;
        let j = k % 12;
        match edge_candidate(shape_A, shape_B, &vertices_a, &vertices_b, i, j) {
            None => {
            },
            Some(None) => {
                proof {
                    lemma_edge_scan_none(shape_A@, shape_B@, k as int + 1, 144);
                }
                return None;
            },
            Some(Some((x, cu))) => {
                if x.0 < best_d.0 {
                    best_d = x;
                    best_axis = cu;
                    best_ea = i;
                    best_eb = j;
                }
            },
        }
        k += 1;
    }

    Some(
        SAT3DResult {
            face_A: Face { distance: best_face_a.0, axis: best_face_a.1, face_index: best_face_a.2 },
            face_B: Face { distance: best_face_b.0, axis: best_face_b.1, face_index: best_face_b.2 },
            edge: Edge {
                distance: best_d,
                axis: best_axis,
                edge_a_index: best_ea,
                edge_b_index: best_eb,
            },
        },
    )
}

} // verus!
