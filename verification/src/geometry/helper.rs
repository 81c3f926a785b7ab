//! Point-set helpers: nearest point search, projections, means, polygon
//! clipping against a plane, face normals and perpendicular bases.

use crate::fixed::{fdiv, sdiv, smul, Fx, MAX_RAW, SCALE};
use crate::math::vector::{
    cross, cross_s, dot, dot_s, normalized, normalized_s, projection, projection_s,
    squared_magnitude, sqmag_s, vadd_s, vdivs_s, vneg_s, vsub_s, Vector3, V3,
};
use vstd::pervasive::VecAdditionalExecFns;
use vstd::prelude::*;

verus! {

/// The views of a vector of vectors.
pub open spec fn seq_v3(pts: Seq<Vector3>) -> Seq<V3> {
    pts.map_values(|v: Vector3| v@)
}

/// Index of the point closest to `p` among the first `n` points.
pub open spec fn closest_to_p_upto_s(p: V3, pts: Seq<V3>, n: int) -> (int, int)
    decreases n,
{
    if n <= 1 {
        (0, sqmag_s(vsub_s(pts[0], p)))
    } else {
        let prev = closest_to_p_upto_s(p, pts, n - 1);
        let dd = sqmag_s(vsub_s(p, pts[n - 1]));
        if prev.1 > dd {
            (n - 1, dd)
        } else {
            prev
        }
    }
}

/// Index of the point of `pts` closest to `p` (the first one on ties).
pub fn closest_to_p(p: &Vector3, pts: &Vec<Vector3>) -> (r: usize)
    requires
        pts@.len() >= 1,
    ensures
        r as int == closest_to_p_upto_s(p@, seq_v3(pts@), pts@.len() as int).0,
{
    let mut closest_vertex: usize = 0;
    let mut distance = squared_magnitude(&pts[0].vsub(p));
    let mut i: usize = 1;
    while i < pts.len()
        invariant
            1 <= i <= pts@.len(),
            closest_vertex < i,
            (closest_vertex as int, distance@) == closest_to_p_upto_s(
                p@,
                seq_v3(pts@),
                i as int,
            ),
        decreases pts@.len() - i,
    {
        let dd = squared_magnitude(&p.vsub(&pts[i]));
        if distance.0 > dd.0 {
            distance = dd;
            closest_vertex = i;
        }
        i += 1;
    }
    closest_vertex
}

/// Smallest projection of the first `n` points on `normal`, with its index.
pub open spec fn closest_projection_upto_s(normal: V3, pts: Seq<V3>, n: int) -> (int, int)
    decreases n,
{
    if n <= 0 {
        (MAX_RAW as int, 0)
    } else {
        let prev = closest_projection_upto_s(normal, pts, n - 1);
        let x = dot_s(normal, pts[n - 1]);
        if x < prev.0 {
            (x, n - 1)
        } else {
            prev
        }
    }
}

/// The smallest projection on `normal` among `points`, and its index.
pub fn closest_projection(normal: &Vector3, points: &Vec<Vector3>) -> (r: (Fx, usize))
    ensures
        (r.0@, r.1 as int) == closest_projection_upto_s(
            normal@,
            seq_v3(points@),
            points@.len() as int,
        ),
{
    let mut smallest_distance = Fx(MAX_RAW);
    let mut closest_point_index: usize = 0;
    let mut i: usize = 0;
    while i < points.len()
        invariant
            0 <= i <= points@.len(),
            (smallest_distance@, closest_point_index as int) == closest_projection_upto_s(
                normal@,
                seq_v3(points@),
                i as int,
            ),
        decreases points@.len() - i,
    {
        let x = dot(normal, &points[i]);
        if x.0 < smallest_distance.0 {
            smallest_distance = x;
            closest_point_index = i;
        }
        i += 1;
    }
    (smallest_distance, closest_point_index)
}

/// Coordinate-wise sum of the first `n` points.
pub open spec fn sum_upto_s(pts: Seq<V3>, n: int) -> V3
    decreases n,
{
    if n <= 0 {
        V3 { x: 0, y: 0, z: 0 }
    } else {
        vadd_s(sum_upto_s(pts, n - 1), pts[n - 1])
    }
}

/// The mean of `points`: their sum divided by their number.
pub fn mean_point(points: &Vec<Vector3>) -> (r: Vector3)
    requires
        points@.len() <= 1_000_000_000,
    ensures
        r@ == vdivs_s(
            sum_upto_s(seq_v3(points@), points@.len() as int),
            points@.len() * SCALE as int,
        ),
{
    let mut midpoint = Vector3::origin();
    let mut i: usize = 0;
    while i < points.len()
        invariant
            0 <= i <= points@.len(),
            midpoint@ == sum_upto_s(seq_v3(points@), i as int),
        decreases points@.len() - i,
    {
        midpoint = midpoint.vadd(&points[i]);
        i += 1;
    }
    let size = Fx((points.len() as i64) * SCALE);
    midpoint.divs(size)
}

/// One vertex after clipping: a vertex above the clipping plane through
/// `vertex_on_face` is pulled back onto it along the clipping normal.
pub open spec fn clip_one_s(v: V3, clipping_normal: V3, vertex_on_face: V3) -> V3 {
    if dot_s(clipping_normal, vsub_s(v, vertex_on_face)) > 0 {
        vsub_s(v, projection_s(clipping_normal, vsub_s(v, vertex_on_face)))
    } else {
        v
    }
}

/// Pull every vertex lying above the clipping plane back onto it.
pub fn clip(vertices_to_clip: &mut Vec<Vector3>, clipping_normal: Vector3, vertex_on_face:
    &Vector3)
    ensures
        final(vertices_to_clip)@.len() == old(vertices_to_clip)@.len(),
        forall|i: int|
            0 <= i < old(vertices_to_clip)@.len() ==> final(vertices_to_clip)@[i]@ == clip_one_s(
                old(vertices_to_clip)@[i]@,
                clipping_normal@,
                vertex_on_face@,
            ),
{
    let mut i: usize = 0;
    while i < vertices_to_clip.len()
        invariant
            0 <= i <= vertices_to_clip@.len(),
            vertices_to_clip@.len() == old(vertices_to_clip)@.len(),
            forall|k: int|
                i <= k < vertices_to_clip@.len() ==> vertices_to_clip@[k] == old(vertices_to_clip)@[k],
            forall|k: int|
                0 <= k < i ==> vertices_to_clip@[k]@ == clip_one_s(
                    old(vertices_to_clip)@[k]@,
                    clipping_normal@,
                    vertex_on_face@,
                ),
        decreases vertices_to_clip@.len() - i,
    {
        let v = vertices_to_clip[i];
        let face2vertex = v.vsub(vertex_on_face);
        if dot(&clipping_normal, &face2vertex).0 > 0 {
            let nv = v.vsub(&projection(&clipping_normal, &face2vertex));
            vertices_to_clip.set(i, nv);
        }
        i += 1;
    }
}

/// The unit normal of the triangle `(p1, p2, p3)`, oriented away from the
/// origin's side of `p1`.
pub open spec fn face_normal_s(p1: V3, p2: V3, p3: V3) -> V3 {
    let n = normalized_s(cross_s(vsub_s(p3, p2), vsub_s(p1, p2)));
    if dot_s(n, p1) < 0 {
        vneg_s(n)
    } else {
        n
    }
}

/// The unit normal of the triangle `(p1, p2, p3)`, oriented away from the
/// origin's side of `p1`.
pub fn face_normal(p1: &Vector3, p2: &Vector3, p3: &Vector3) -> (r: Vector3)
    ensures
        r@ == face_normal_s(p1@, p2@, p3@),
{
    let d1 = p3.vsub(p2);
    let d2 = p1.vsub(p2);
    let mut normal = cross(&d1, &d2);
    crate::math::vector::normalize(&mut normal);
    if dot(&normal, p1).0 < 0 {
        normal = normal.vneg();
    }
    normal
}

/// Two vectors spanning a plane perpendicular to `v` (an orthonormal basis
/// when `v` is unit length).
pub fn perp(v: &Vector3) -> (r: (Vector3, Vector3))
    ensures
        ({
            let v1 = cross_s(v@, V3 { x: 0, y: SCALE as int, z: 0 });
            let v1f = if v1 == (V3 { x: 0, y: 0, z: 0 }) {
                cross_s(v@, V3 { x: SCALE as int, y: 0, z: 0 })
            } else {
                v1
            };
            r.0@ == v1f && r.1@ == cross_s(v1f, v@)
        }),
{
    let mut v1 = cross(v, &crate::math::vector::Directions::up());
    if v1.x.0 == 0 && v1.y.0 == 0 && v1.z.0 == 0 {
        v1 = cross(v, &crate::math::vector::Directions::right());
    }
    (v1, cross(&v1, v))
}

} // verus!
