//! The oriented bounding box: half extents around a transform, with the
//! fixed vertex / edge / face topology of a box.

use crate::fixed::{
    fabs, fmul, fneg, mag_s, sabs, sadd, sclamp, smul, sneg, ssign, ssub, Fx, SCALE,
};
use crate::geometry::geometry_traits::{EdgeIndex, FaceIndex, PolyhedronSizes};
use crate::math::helper;
use crate::math::helper::round_n_decimal_s;
use crate::math::matrix::{row_s, M3};
use crate::math::transform::{tident_s, transform_point_s, Tf, Transform};
use crate::math::vector::{dot, dot_s, vadd_s, vscale_s, vsub_s, Vector3, V3};
use vstd::prelude::*;

verus! {

/// Spec-level image of a box: geometry plus its stored topology tables.
pub ghost struct ObbV {
    pub half_side: V3,
    pub transform: Tf,
    pub vertices: Seq<V3>,
    pub edges: Seq<(int, int)>,
    pub faces: Seq<Seq<int>>,
}

/// An oriented bounding box.
pub struct OBB {
    pub half_side: Vector3,
    pub transform: Transform,
    pub vertices: Vec<Vector3>,
    pub edges: Vec<EdgeIndex>,
    pub faces: Vec<FaceIndex>,
}

impl View for OBB {
    type V = ObbV;

    open spec fn view(&self) -> ObbV {
        ObbV {
            half_side: self.half_side@,
            transform: self.transform@,
            vertices: self.vertices@.map_values(|v: Vector3| v@),
            edges: self.edges@.map_values(|e: EdgeIndex| (e.vi1 as int, e.vi2 as int)),
            faces: self.faces@.map_values(|f: FaceIndex| f.v_i@.map_values(|u: usize| u as int)),
        }
    }
}

/// Coordinate `i` of a spec vector.
pub open spec fn at3_s(v: V3, i: int) -> int {
    if i == 0 {
        v.x
    } else if i == 1 {
        v.y
    } else {
        v.z
    }
}

/// The local corner `i` of a box with half extents `h`, in the fixed order
/// (far top right first, winding down to near bottom right).
pub open spec fn obb_vertex_s(h: V3, i: int) -> V3 {
    if i == 0 {
        V3 { x: h.x, y: h.y, z: h.z }
    } else if i == 1 {
        V3 { x: sneg(h.x), y: h.y, z: h.z }
    } else if i == 2 {
        V3 { x: sneg(h.x), y: sneg(h.y), z: h.z }
    } else if i == 3 {
        V3 { x: h.x, y: sneg(h.y), z: h.z }
    } else if i == 4 {
        V3 { x: h.x, y: h.y, z: sneg(h.z) }
    } else if i == 5 {
        V3 { x: sneg(h.x), y: h.y, z: sneg(h.z) }
    } else if i == 6 {
        V3 { x: sneg(h.x), y: sneg(h.y), z: sneg(h.z) }
    } else {
        V3 { x: h.x, y: sneg(h.y), z: sneg(h.z) }
    }
}

/// End-vertex indices of edge `i` (top ring, then the vertical edges, then
/// the bottom ring).
pub open spec fn obb_edge_s(i: int) -> (int, int) {
    if i == 0 {
        (0, 1)
    } else if i == 1 {
        (1, 5)
    } else if i == 2 {
        (5, 4)
    } else if i == 3 {
        (4, 0)
    } else if i == 4 {
        (0, 3)
    } else if i == 5 {
        (1, 2)
    } else if i == 6 {
        (5, 6)
    } else if i == 7 {
        (4, 7)
    } else if i == 8 {
        (3, 2)
    } else if i == 9 {
        (2, 6)
    } else if i == 10 {
        (6, 7)
    } else {
        (7, 3)
    }
}

/// Vertex `k` of face `f`, faces ordered +X, -X, +Y, -Y, +Z, -Z with
/// trigonometric winding.
pub open spec fn obb_face_s(f: int, k: int) -> int {
    if f == 0 {
        if k == 0 {
            4
        } else if k == 1 {
            7
        } else if k == 2 {
            3
        } else {
            0
        }
    } else if f == 1 {
        if k == 0 {
            1
        } else if k == 1 {
            2
        } else if k == 2 {
            6
        } else {
            5
        }
    } else if f == 2 {
        if k == 0 {
            0
        } else if k == 1 {
            1
        } else if k == 2 {
            5
        } else {
            4
        }
    } else if f == 3 {
        if k == 0 {
            3
        } else if k == 1 {
            2
        } else if k == 2 {
            6
        } else {
            7
        }
    } else if f == 4 {
        if k == 0 {
            0
        } else if k == 1 {
            3
        } else if k == 2 {
            2
        } else {
            1
        }
    } else {
        if k == 0 {
            5
        } else if k == 1 {
            6
        } else if k == 2 {
            7
        } else {
            4
        }
    }
}

/// The stored topology tables hold exactly the canonical box topology for
/// the stored half extents.
pub open spec fn obb_wf(o: ObbV) -> bool {
    &&& o.vertices.len() == 8
    &&& (forall|i: int| 0 <= i < 8 ==> o.vertices[i] == obb_vertex_s(o.half_side, i))
    &&& o.edges.len() == 12
    &&& (forall|i: int|
        0 <= i < 12 ==> o.edges[i] == obb_edge_s(i) && 0 <= obb_edge_s(i).0 < 8 && 0 <= obb_edge_s(
            i,
        ).1 < 8)
    &&& o.faces.len() == 6
    &&& (forall|f: int| 0 <= f < 6 ==> o.faces[f].len() == 4)
    &&& (forall|f: int, k: int|
        0 <= f < 6 && 0 <= k < 4 ==> o.faces[f][k] == obb_face_s(f, k) && 0 <= obb_face_s(f, k)
            < 8)
}

/// World position of local corner `i`.
pub open spec fn obb_world_vertex_s(o: ObbV, i: int) -> V3 {
    transform_point_s(o.transform, obb_vertex_s(o.half_side, i))
}

/// Outward normal of face `f`: a row of the rotation, flipped for odd `f`.
pub open spec fn obb_face_normal_s(o: ObbV, f: int) -> V3 {
    let m = f % 2;
    let n = row_s(o.transform.rotation, (f - m) / 2);
    vsub_s(n, vscale_s(vscale_s(n, 2 * SCALE as int), m * SCALE as int))
}

/// `p` lies inside the box (inclusive of the boundary).
pub open spec fn obb_is_inside_s(o: ObbV, p: V3) -> bool {
    let d = vsub_s(p, o.transform.translation);
    &&& obb_axis_within_s(o, d, 0)
    &&& obb_axis_within_s(o, d, 1)
    &&& obb_axis_within_s(o, d, 2)
}

pub open spec fn obb_axis_within_s(o: ObbV, d: V3, i: int) -> bool {
    let scalar = dot_s(row_s(o.transform.rotation, i), d);
    -at3_s(o.half_side, i) <= scalar <= at3_s(o.half_side, i)
}

/// `p` clamped into the box along each of its axes: the closest point of
/// the solid box.
pub open spec fn obb_project_or_inside_s(o: ObbV, p: V3) -> V3 {
    let t = o.transform.translation;
    let d = vsub_s(p, t);
    let p0 = vadd_s(
        t,
        vscale_s(
            row_s(o.transform.rotation, 0),
            sclamp(dot_s(row_s(o.transform.rotation, 0), d), sneg(o.half_side.x), o.half_side.x),
        ),
    );
    let p1 = vadd_s(
        p0,
        vscale_s(
            row_s(o.transform.rotation, 1),
            sclamp(dot_s(row_s(o.transform.rotation, 1), d), sneg(o.half_side.y), o.half_side.y),
        ),
    );
    vadd_s(
        p1,
        vscale_s(
            row_s(o.transform.rotation, 2),
            sclamp(dot_s(row_s(o.transform.rotation, 2), d), sneg(o.half_side.z), o.half_side.z),
        ),
    )
}

/// The tie bookkeeping of the support-point routine: which axis carries the
/// largest projection (`i_max`), how many other axes tie with it to six
/// decimals (`cas`), and the first tying axis (`idx2`).
pub open spec fn contour_state_s(s0: int, s1: int, s2: int) -> (int, int, int) {
    let st1 = if round_n_decimal_s(sabs(s1), 6) == round_n_decimal_s(sabs(s0), 6) {
        (0int, 1int, 1int)
    } else if sabs(s1) > sabs(s0) {
        (1int, 0int, 0int)
    } else {
        (0int, 0int, 0int)
    };
    let imax = st1.0;
    let cas = st1.1;
    let idx2 = st1.2;
    let smax = if imax == 0 { s0 } else { s1 };
    if round_n_decimal_s(sabs(s2), 6) == round_n_decimal_s(sabs(smax), 6) {
        if cas == 1 {
            (imax, 2int, idx2)
        } else {
            (imax, 1int, 2int)
        }
    } else if sabs(s2) > sabs(smax) {
        (2int, cas, idx2)
    } else {
        (imax, cas, idx2)
    }
}

/// Support point of the box in the direction `n`: the corner, edge point or
/// face point whose choice follows the tie analysis of the projections.
pub open spec fn obb_project_dir_s(o: ObbV, n: V3) -> V3 {
    let rot = o.transform.rotation;
    let t = o.transform.translation;
    let h = o.half_side;
    let s0 = dot_s(row_s(rot, 0), n);
    let s1 = dot_s(row_s(rot, 1), n);
    let s2 = dot_s(row_s(rot, 2), n);
    let st = contour_state_s(s0, s1, s2);
    let imax = st.0;
    let cas = st.1;
    let idx2 = st.2;
    let sc = |i: int| if i == 0 { s0 } else if i == 1 { s1 } else { s2 };
    if cas == 0 {
        let i = (imax + 1) % 3;
        let j = (imax + 2) % 3;
        vadd_s(
            vadd_s(
                vadd_s(
                    t,
                    vscale_s(vscale_s(row_s(rot, imax), at3_s(h, imax)), ssign(sc(imax))),
                ),
                vscale_s(row_s(rot, i), sclamp(sc(i), sneg(at3_s(h, i)), at3_s(h, i))),
            ),
            vscale_s(row_s(rot, j), sclamp(sc(j), sneg(at3_s(h, j)), at3_s(h, j))),
        )
    } else if cas == 1 {
        let j0 = (imax + 1) % 3;
        let j = if j0 == idx2 { (imax + 2) % 3 } else { j0 };
        vadd_s(
            vadd_s(
                vadd_s(
                    t,
                    vscale_s(vscale_s(row_s(rot, imax), at3_s(h, imax)), ssign(sc(imax))),
                ),
                vscale_s(vscale_s(row_s(rot, idx2), at3_s(h, idx2)), ssign(sc(idx2))),
            ),
            vscale_s(row_s(rot, j), sclamp(sc(j), sneg(at3_s(h, j)), at3_s(h, j))),
        )
    } else {
        vadd_s(
            vadd_s(
                vadd_s(t, vscale_s(vscale_s(row_s(rot, 0), h.x), ssign(s0))),
                vscale_s(vscale_s(row_s(rot, 1), h.y), ssign(s1)),
            ),
            vscale_s(vscale_s(row_s(rot, 2), h.z), ssign(s2)),
        )
    }
}

/// Distance from the center to the contour along `n`:
/// `sum_i h_i |n . R_i|`.
pub open spec fn obb_contour_distance_s(o: ObbV, n: V3) -> int {
    let rot = o.transform.rotation;
    sadd(
        sadd(
            smul(o.half_side.x, sabs(dot_s(n, row_s(rot, 0)))),
            smul(o.half_side.y, sabs(dot_s(n, row_s(rot, 1)))),
        ),
        smul(o.half_side.z, sabs(dot_s(n, row_s(rot, 2)))),
    )
}

/// Diagonal inertia matrix `(m/12) diag(y^2+z^2, x^2+z^2, x^2+y^2)` of the
/// full side lengths.
pub open spec fn obb_inertia_s(h: V3, mass: int) -> M3 {
    let xs = smul(smul(h.x, h.x), 4 * SCALE as int);
    let ys = smul(smul(h.y, h.y), 4 * SCALE as int);
    let zs = smul(smul(h.z, h.z), 4 * SCALE as int);
    let div = crate::fixed::sdivi(mass, 12);
    crate::math::matrix::mdiag_s(
        V3 {
            x: smul(div, sadd(ys, zs)),
            y: smul(div, sadd(xs, zs)),
            z: smul(div, sadd(xs, ys)),
        },
    )
}

impl OBB {
    /// A box of the given half extents at the identity transform, with the
    /// canonical topology tables filled in.
    pub fn new(half_side: Vector3) -> (r: OBB)
        ensures
            obb_wf(r@),
            r@.half_side == half_side@,
            r@.transform == tident_s(),
    {
        let xl = half_side.x;
        let yl = half_side.y;
        let zl = half_side.z;
        let nx = fneg(xl);
        let ny = fneg(yl);
        let nz = fneg(zl);
        let mut vertices: Vec<Vector3> = Vec::new();
        vertices.push(Vector3::new(xl, yl, zl));  // far top right
        vertices.push(Vector3::new(nx, yl, zl));  // far top left
        vertices.push(Vector3::new(nx, ny, zl));  // far bottom left
        vertices.push(Vector3::new(xl, ny, zl));  // far bottom right
        vertices.push(Vector3::new(xl, yl, nz));  // near top right
        vertices.push(Vector3::new(nx, yl, nz));  // near top left
        vertices.push(Vector3::new(nx, ny, nz));  // near bottom left
        vertices.push(Vector3::new(xl, ny, nz));  // near bottom right

        let mut edges: Vec<EdgeIndex> = Vec::new();
        edges.push(EdgeIndex { vi1: 0, vi2: 1 });
        edges.push(EdgeIndex { vi1: 1, vi2: 5 });
        edges.push(EdgeIndex { vi1: 5, vi2: 4 });
        edges.push(EdgeIndex { vi1: 4, vi2: 0 });
        edges.push(EdgeIndex { vi1: 0, vi2: 3 });
        edges.push(EdgeIndex { vi1: 1, vi2: 2 });
        edges.push(EdgeIndex { vi1: 5, vi2: 6 });
        edges.push(EdgeIndex { vi1: 4, vi2: 7 });
        edges.push(EdgeIndex { vi1: 3, vi2: 2 });
        edges.push(EdgeIndex { vi1: 2, vi2: 6 });
        edges.push(EdgeIndex { vi1: 6, vi2: 7 });
        edges.push(EdgeIndex { vi1: 7, vi2: 3 });

        let mut faces: Vec<FaceIndex> = Vec::new();
        faces.push(FaceIndex { v_i: face_vec(4, 7, 3, 0) });
        faces.push(FaceIndex { v_i: face_vec(1, 2, 6, 5) });
        faces.push(FaceIndex { v_i: face_vec(0, 1, 5, 4) });
        faces.push(FaceIndex { v_i: face_vec(3, 2, 6, 7) });
        faces.push(FaceIndex { v_i: face_vec(0, 3, 2, 1) });
        faces.push(FaceIndex { v_i: face_vec(5, 6, 7, 4) });

        let r = OBB { half_side, transform: Transform::identity(), vertices, edges, faces };
        proof {
            assert forall|i: int| 0 <= i < 8 implies r@.vertices[i] == obb_vertex_s(
                r@.half_side,
                i,
            ) by {
                assert(r@.vertices[i] == r.vertices@[i]@);
            }
            assert forall|i: int| 0 <= i < 12 implies r@.edges[i] == obb_edge_s(i) by {
                assert(r@.edges[i] == (r.edges@[i].vi1 as int, r.edges@[i].vi2 as int));
            }
            assert forall|f: int, k: int| 0 <= f < 6 && 0 <= k < 4 implies r@.faces[f][k]
                == obb_face_s(f, k) by {
                assert(r@.faces[f] == r.faces@[f].v_i@.map_values(|u: usize| u as int));
                assert(r@.faces[f][k] == r.faces@[f].v_i@[k] as int);
            }
            assert forall|f: int| 0 <= f < 6 implies r@.faces[f].len() == 4 by {
                assert(r@.faces[f] == r.faces@[f].v_i@.map_values(|u: usize| u as int));
            }
        }
        r
    }

    /// Numbers of vertices, edges and faces.
    pub fn sizes(&self) -> (r: PolyhedronSizes)
        ensures
            r.vertices == 8usize && r.edges == 12usize && r.faces == 6usize,
    {
        PolyhedronSizes { vertices: 8, edges: 12, faces: 6 }
    }

    /// The corner reached by walking from the center against all three axes.
    pub fn min(&self) -> (r: Vector3)
        ensures
            r@ == ({
                let t = self@.transform.translation;
                let rot = self@.transform.rotation;
                let h = self@.half_side;
                vsub_s(
                    vsub_s(
                        vsub_s(t, vscale_s(row_s(rot, 0), h.x)),
                        vscale_s(row_s(rot, 1), h.y),
                    ),
                    vscale_s(row_s(rot, 2), h.z),
                )
            }),
    {
        let t = self.transform.translation;
        let p0 = t.vsub(&self.transform.rotation.row(0).scale(self.half_side.x));
        let p1 = p0.vsub(&self.transform.rotation.row(1).scale(self.half_side.y));
        p1.vsub(&self.transform.rotation.row(2).scale(self.half_side.z))
    }

    /// The corner reached by walking from the center along all three axes.
    pub fn max(&self) -> (r: Vector3)
        ensures
            r@ == ({
                let t = self@.transform.translation;
                let rot = self@.transform.rotation;
                let h = self@.half_side;
                vadd_s(
                    vadd_s(
                        vadd_s(t, vscale_s(row_s(rot, 0), h.x)),
                        vscale_s(row_s(rot, 1), h.y),
                    ),
                    vscale_s(row_s(rot, 2), h.z),
                )
            }),
    {
        let t = self.transform.translation;
        let p0 = t.vadd(&self.transform.rotation.row(0).scale(self.half_side.x));
        let p1 = p0.vadd(&self.transform.rotation.row(1).scale(self.half_side.y));
        p1.vadd(&self.transform.rotation.row(2).scale(self.half_side.z))
    }

    /// Whether `p` lies inside the box (boundary included).
    pub fn is_inside(&self, p: &Vector3) -> (r: bool)
        ensures
            r == obb_is_inside_s(self@, p@),
    {
        let obb_to_p = p.vsub(&self.transform.translation);
        let s0 = dot(&self.transform.rotation.row(0), &obb_to_p);
        if s0.0 > self.half_side.x.0 || s0.0 < fneg(self.half_side.x).0 {
            return false;
        }
        let s1 = dot(&self.transform.rotation.row(1), &obb_to_p);
        if s1.0 > self.half_side.y.0 || s1.0 < fneg(self.half_side.y).0 {
            return false;
        }
        let s2 = dot(&self.transform.rotation.row(2), &obb_to_p);
        if s2.0 > self.half_side.z.0 || s2.0 < fneg(self.half_side.z).0 {
            return false;
        }
        true
    }

    /// The clamped-coordinate image of `p` in the box's frame: for an
    /// orthonormal rotation this is the nearest point of the box, and `p`
    /// itself when `p` is inside, each up to the rounding of the
    /// coordinate products.
    pub fn project_point_onto_contour_or_inside(&self, p: &Vector3) -> (r: Vector3)
        ensures
            r@ == obb_project_or_inside_s(self@, p@),
    {
        let t = self.transform.translation;
        let p_to_obb = p.vsub(&t);
        let r0 = self.transform.rotation.row(0);
        let c0 = helper::clamp(dot(&r0, &p_to_obb), fneg(self.half_side.x), self.half_side.x);
        let q0 = t.vadd(&r0.scale(c0));
        let r1 = self.transform.rotation.row(1);
        let c1 = helper::clamp(dot(&r1, &p_to_obb), fneg(self.half_side.y), self.half_side.y);
        let q1 = q0.vadd(&r1.scale(c1));
        let r2 = self.transform.rotation.row(2);
        let c2 = helper::clamp(dot(&r2, &p_to_obb), fneg(self.half_side.z), self.half_side.z);
        q1.vadd(&r2.scale(c2))
    }

    /// The projection of `p` onto the contour, whether `p` is in or out.
    pub fn project_point_onto_contour_only(&self, p: &Vector3) -> (r: Vector3)
        ensures
            r@ == obb_project_dir_s(self@, vsub_s(p@, self@.transform.translation)),
    {
        let n = p.vsub(&self.transform.translation);
        self.project_on_contour_in_direction(&n)
    }

    /// Support point on the contour in the direction `n`, with ties between
    /// axis projections resolved so that face, edge and corner directions
    /// reproduce the corresponding feature.
    pub fn project_on_contour_in_direction(&self, n: &Vector3) -> (r: Vector3)
        ensures
            r@ == obb_project_dir_s(self@, n@),
    {
        let rot = &self.transform.rotation;
        let t = self.transform.translation;
        let s0 = dot(&rot.row(0), n);
        let s1 = dot(&rot.row(1), n);
        let s2 = dot(&rot.row(2), n);

        let mut i_max: usize = 0;
        let mut cas: u32 = 0;
        let mut idx2: usize = 0;
        if helper::round_n_decimal(fabs(s1), 6).0 == helper::round_n_decimal(fabs(s0), 6).0 {
            cas = 1;
            idx2 = 1;
        } else if fabs(s1).0 > fabs(s0).0 {
            i_max = 1;
        }
        let smax = if i_max == 0 { s0 } else { s1 };
        if helper::round_n_decimal(fabs(s2), 6).0 == helper::round_n_decimal(fabs(smax), 6).0 {
            if cas == 1 {
                cas = 2;
            } else {
                idx2 = 2;
                cas = 1;
            }
        } else if fabs(s2).0 > fabs(smax).0 {
            i_max = 2;
        }

        let h = self.half_side;
        if cas == 0 {
            let i = (i_max + 1) % 3;
            let j = (i_max + 2) % 3;
            let si_max = pick(s0, s1, s2, i_max);
            let si = pick(s0, s1, s2, i);
            let sj = pick(s0, s1, s2, j);
            t.vadd(&rot.row(i_max).scale(h.at(i_max)).scale(helper::sign(si_max)))
                .vadd(&rot.row(i).scale(helper::clamp(si, fneg(h.at(i)), h.at(i))))
                .vadd(&rot.row(j).scale(helper::clamp(sj, fneg(h.at(j)), h.at(j))))
        } else if cas == 1 {
            let mut j = (i_max + 1) % 3;
            if j == idx2 {
                j = (i_max + 2) % 3;
            }
            let si_max = pick(s0, s1, s2, i_max);
            let s_idx2 = pick(s0, s1, s2, idx2);
            let sj = pick(s0, s1, s2, j);
            t.vadd(&rot.row(i_max).scale(h.at(i_max)).scale(helper::sign(si_max)))
                .vadd(&rot.row(idx2).scale(h.at(idx2)).scale(helper::sign(s_idx2)))
                .vadd(&rot.row(j).scale(helper::clamp(sj, fneg(h.at(j)), h.at(j))))
        } else {
            t.vadd(&rot.row(0).scale(h.x).scale(helper::sign(s0)))
                .vadd(&rot.row(1).scale(h.y).scale(helper::sign(s1)))
                .vadd(&rot.row(2).scale(h.z).scale(helper::sign(s2)))
        }
    }

    /// Distance from the center to the contour in the direction of `n`.
    pub fn contour_distance(&self, n: &Vector3) -> (r: Fx)
        ensures
            r@ == obb_contour_distance_s(self@, n@),
    {
        let rot = &self.transform.rotation;
        crate::fixed::fadd(
            crate::fixed::fadd(
                fmul(self.half_side.x, fabs(dot(n, &rot.row(0)))),
                fmul(self.half_side.y, fabs(dot(n, &rot.row(1)))),
            ),
            fmul(self.half_side.z, fabs(dot(n, &rot.row(2)))),
        )
    }

    /// Inertia matrix of the solid box for the given mass.
    pub fn compute_inertia_matrix(&self, mass: Fx) -> (r: crate::math::Mat3)
        ensures
            r@ == obb_inertia_s(self@.half_side, mass@),
    {
        let four = Fx(4 * SCALE);
        let xs = fmul(fmul(self.half_side.x, self.half_side.x), four);
        let ys = fmul(fmul(self.half_side.y, self.half_side.y), four);
        let zs = fmul(fmul(self.half_side.z, self.half_side.z), four);
        let div = crate::fixed::fdivn(mass, 12);
        crate::math::Mat3::diag(
            Vector3::new(
                fmul(div, crate::fixed::fadd(ys, zs)),
                fmul(div, crate::fixed::fadd(xs, zs)),
                fmul(div, crate::fixed::fadd(xs, ys)),
            ),
        )
    }

    /// World positions of the eight corners.
    pub fn transformed_vertices(&self) -> (r: Vec<Vector3>)
        requires
            obb_wf(self@),
        ensures
            r@.len() == 8,
            forall|i: int| 0 <= i < 8 ==> r@[i]@ == obb_world_vertex_s(self@, i),
    {
        let mut vec: Vec<Vector3> = Vec::new();
        let mut i: usize = 0;
        while i < 8
            invariant
                obb_wf(self@),
                i <= 8,
                vec@.len() == i,
                forall|k: int| 0 <= k < i ==> vec@[k]@ == obb_world_vertex_s(self@, k),
                self.vertices@.len() == 8,
            decreases 8 - i,
        {
            vec.push(self.transform.transform(&self.vertices[i]));
            i += 1;
        }
        vec
    }

    /// World position of corner `vertex_idx`.
    pub fn transformed_vertex(&self, vertex_idx: usize) -> (r: Vector3)
        requires
            obb_wf(self@),
            vertex_idx < 8,
        ensures
            r@ == obb_world_vertex_s(self@, vertex_idx as int),
    {
        self.transform.transform(&self.vertices[vertex_idx])
    }

    /// Outward normal of face `face`: a rotation row, flipped when `face`
    /// is odd.
    pub fn face_normal(&self, face: usize) -> (r: Vector3)
        requires
            face < 6,
        ensures
            r@ == obb_face_normal_s(self@, face as int),
    {
        let modulo = face % 2;
        let n = self.transform.rotation.row((face - modulo) / 2);
        n.vsub(&n.scale(Fx(2 * SCALE)).scale(Fx(modulo as i64 * SCALE)))
    }

    /// The three face indices giving the box's unique separating axes.
    pub fn sat_separating_axis(&self) -> (r: Vec<usize>)
        ensures
            r@.len() == 3,
            r@[0] == 0usize && r@[1] == 2usize && r@[2] == 4usize,
    {
        let mut v: Vec<usize> = Vec::new();
        v.push(0);
        v.push(2);
        v.push(4);
        v
    }
}

/// Coordinate selection used by the support-point routine.
fn pick(s0: Fx, s1: Fx, s2: Fx, i: usize) -> (r: Fx)
    requires
        i < 3,
    ensures
        i == 0 ==> r == s0,
        i == 1 ==> r == s1,
        i == 2 ==> r == s2,
{
    if i == 0 {
        s0
    } else if i == 1 {
        s1
    } else {
        s2
    }
}

/// A four-entry index list.
fn face_vec(a: usize, b: usize, c: usize, d: usize) -> (r: Vec<usize>)
    ensures
        r@.len() == 4,
        r@[0] == a && r@[1] == b && r@[2] == c && r@[3] == d,
{
    let mut v: Vec<usize> = Vec::new();
    v.push(a);
    v.push(b);
    v.push(c);
    v.push(d);
    v
}

} // verus!
