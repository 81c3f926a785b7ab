//! Line segments: closest points between two segments, intersection with a
//! plane, and small membership tests.

use super::plane::{signed_distance_s, Plane};
use crate::fixed::{
    fabs, fdiv, fdivr, fmul, fneg, fsub, sabs, sclamp, sdiv, sdivr, smul, sneg, ssub, Fx, SCALE,
};
use crate::math::helper;
use crate::math::helper::round_n_decimal_s;
use crate::math::vector::{
    dot, dot_s, normalized, normalized_s, squared_magnitude, sqmag_s, vadd_s, vscale_s,
    vsub_s, Vector3, V3,
};
use vstd::prelude::*;

verus! {

/// A segment from `a` to `b`.
pub struct Segment {
    pub a: Vector3,
    pub b: Vector3,
}

/// `a (1 - t) + b t`.
pub open spec fn lerp_s(a: V3, b: V3, t: int) -> V3 {
    vadd_s(vscale_s(a, ssub(SCALE as int, t)), vscale_s(b, t))
}

/// The pair of closest points between segments `(p1, p2)` and `(p3, p4)`:
/// the interior solution of the two orthogonality equations (computed with
/// round-to-nearest divisions, which keeps parameters that fall exactly on
/// an end inside the range) when its parameters fall inside both segments
/// and no denominator vanishes, otherwise the better of the clamped
/// end-point projections on each side.  The clamped fallback is a
/// heuristic: it always returns a point of each segment, but need not
/// realize the true minimum distance.
pub open spec fn closest_pts_s(p1: V3, p2: V3, p3: V3, p4: V3) -> (V3, V3) {
    let d12 = vsub_s(p2, p1);
    let d34 = vsub_s(p4, p3);
    let d31 = vsub_s(p1, p3);
    let dot12 = dot_s(d12, d12);
    let dot34 = dot_s(d34, d34);
    let dot1234 = dot_s(d12, d34);
    let dot3431 = dot_s(d34, d31);
    let den = ssub(smul(dot12, dot34), smul(dot1234, dot1234));
    let t = sdivr(ssub(smul(dot3431, dot12), smul(dot_s(d12, d31), dot1234)), den);
    let s = sdivr(ssub(smul(t, dot34), dot3431), dot1234);
    if den != 0 && dot1234 != 0 && 0 <= s <= SCALE as int && 0 <= t <= SCALE as int {
        (lerp_s(p1, p2, s), lerp_s(p3, p4, t))
    } else {
        let self_s_p3 = sclamp(sdiv(sneg(dot_s(d31, d12)), dot12), 0, SCALE as int);
        let self_s_p4 = sclamp(sdiv(sneg(dot_s(vsub_s(p1, p4), d12)), dot12), 0, SCALE as int);
        let line_t_p1 = sclamp(sdiv(dot_s(d31, d34), dot34), 0, SCALE as int);
        let line_t_p2 = sclamp(sdiv(sneg(dot_s(vsub_s(p3, p2), d34)), dot34), 0, SCALE as int);
        let ca = lerp_s(p1, p2, self_s_p3);
        let cb = lerp_s(p1, p2, self_s_p4);
        let p_on_self = if sqmag_s(vsub_s(ca, p3)) < sqmag_s(vsub_s(cb, p4)) {
            ca
        } else {
            cb
        };
        let cc = lerp_s(p3, p4, line_t_p1);
        let cd = lerp_s(p3, p4, line_t_p2);
        let p_on_line = if sqmag_s(vsub_s(cc, p1)) < sqmag_s(vsub_s(cd, p2)) {
            cc
        } else {
            cd
        };
        (p_on_self, p_on_line)
    }
}

/// `q` is a point of the segment from `a` to `b`: a convex combination
/// with a parameter inside `[0, 1]`.
pub open spec fn on_segment_s(q: V3, a: V3, b: V3) -> bool {
    exists|t: int| 0 <= t <= SCALE as int && q == #[trigger] lerp_s(a, b, t)
}

/// Rounded to six decimals, coordinate by coordinate.
pub open spec fn round6_s(v: V3) -> V3 {
    V3 {
        x: round_n_decimal_s(v.x, 6),
        y: round_n_decimal_s(v.y, 6),
        z: round_n_decimal_s(v.z, 6),
    }
}

/// The single closest point when the two segments meet (their closest
/// points agree to six decimals).
pub open spec fn intersect_line_s(p1: V3, p2: V3, p3: V3, p4: V3) -> Option<V3> {
    let pts = closest_pts_s(p1, p2, p3, p4);
    if round6_s(pts.0) == round6_s(pts.1) {
        Some(pts.0)
    } else {
        None
    }
}

/// Intersection parameter of the segment with a plane:
/// `t = -(n . (a - p)) / (n . (b - a))`.
pub open spec fn intersect_plane_t_s(a: V3, b: V3, pl: crate::engine::shapes::plane::PlaneV) -> int {
    sdiv(sneg(dot_s(pl.normal, vsub_s(a, pl.transform.translation))), dot_s(pl.normal, vsub_s(b, a)))
}

impl Segment {
    pub fn new(a: Vector3, b: Vector3) -> (r: Segment)
        ensures
            r.a == a && r.b == b,
    {
        Segment { a, b }
    }

    /// Whether `p` lies on the carrier line, judged to six decimals.
    pub fn is_point_on_line(&self, p: Vector3) -> (r: bool)
        ensures
            r == (sabs(
                round_n_decimal_s(
                    dot_s(
                        normalized_s(vsub_s(p@, self.a@)),
                        normalized_s(vsub_s(self.b@, self.a@)),
                    ),
                    6,
                ),
            ) == SCALE as int),
    {
        let ap = normalized(&p.vsub(&self.a));
        let ab = normalized(&self.b.vsub(&self.a));
        let d_rounded = helper::round_n_decimal(dot(&ap, &ab), 6);
        fabs(d_rounded).0 == SCALE
    }

    /// A candidate closest point on each segment to the other one (see
    /// `closest_pts_s` for when the pair is the true minimum).
    #[verifier::rlimit(100)]
    pub fn closest_point_each_other(&self, line: &Segment) -> (r: [Vector3; 2])
        ensures
            (r@[0]@, r@[1]@) == closest_pts_s(self.a@, self.b@, line.a@, line.b@),
            on_segment_s(r@[0]@, self.a@, self.b@),
            on_segment_s(r@[1]@, line.a@, line.b@),
    {
        let p1 = self.a;
        let p2 = self.b;
        let p3 = line.a;
        let p4 = line.b;

        let d12 = p2.vsub(&p1);
        let d34 = p4.vsub(&p3);
        let d31 = p1.vsub(&p3);
        let dot12 = dot(&d12, &d12);
        let dot34 = dot(&d34, &d34);
        let dot1234 = dot(&d12, &d34);
        let dot3431 = dot(&d34, &d31);

        let den = fsub(fmul(dot12, dot34), fmul(dot1234, dot1234));
        let t = fdivr(fsub(fmul(dot3431, dot12), fmul(dot(&d12, &d31), dot1234)), den);
        let s = fdivr(fsub(fmul(t, dot34), dot3431), dot1234);

        if den.0 != 0 && dot1234.0 != 0 && 0 <= s.0 && s.0 <= SCALE && 0 <= t.0 && t.0 <= SCALE {
            let r0 = lerp(&p1, &p2, s);
            let r1 = lerp(&p3, &p4, t);
            proof {
                assert(r0@ == lerp_s(p1@, p2@, s@));
                assert(r1@ == lerp_s(p3@, p4@, t@));
            }
            [r0, r1]
        } else {
            let zero = Fx(0);
            let one = Fx(SCALE);
            let self_s_p3 = helper::clamp(fdiv(fneg(dot(&d31, &d12)), dot12), zero, one);
            let self_s_p4 = helper::clamp(fdiv(fneg(dot(&p1.vsub(&p4), &d12)), dot12), zero, one);
            let line_t_p1 = helper::clamp(fdiv(dot(&d31, &d34), dot34), zero, one);
            let line_t_p2 = helper::clamp(fdiv(fneg(dot(&p3.vsub(&p2), &d34)), dot34), zero, one);

            let ca = lerp(&p1, &p2, self_s_p3);
            let cb = lerp(&p1, &p2, self_s_p4);
            let p_on_self = if squared_magnitude(&ca.vsub(&p3)).0 < squared_magnitude(
                &cb.vsub(&p4),
            ).0 {
                ca
            } else {
                cb
            };

            let cc = lerp(&p3, &p4, line_t_p1);
            let cd = lerp(&p3, &p4, line_t_p2);
            let p_on_line = if squared_magnitude(&cc.vsub(&p1)).0 < squared_magnitude(
                &cd.vsub(&p2),
            ).0 {
                cc
            } else {
                cd
            };

            proof {
                assert(ca@ == lerp_s(p1@, p2@, self_s_p3@));
                assert(cb@ == lerp_s(p1@, p2@, self_s_p4@));
                assert(cc@ == lerp_s(p3@, p4@, line_t_p1@));
                assert(cd@ == lerp_s(p3@, p4@, line_t_p2@));
            }
            [p_on_self, p_on_line]
        }
    }

    /// The meeting point of the two segments' carrier lines, when the
    /// closest points agree to six decimals.
    pub fn intersect_line(&self, line: &Segment) -> (r: Option<Vector3>)
        ensures
            (match r {
                Some(p) => intersect_line_s(self.a@, self.b@, line.a@, line.b@) == Some(p@),
                None => intersect_line_s(self.a@, self.b@, line.a@, line.b@) is None,
            }),
    {
        let pts = self.closest_point_each_other(line);
        let r0 = helper::round_n_decimal_vector(&pts[0], 6);
        let r1 = helper::round_n_decimal_vector(&pts[1], 6);
        if r0.x.0 == r1.x.0 && r0.y.0 == r1.y.0 && r0.z.0 == r1.z.0 {
            Some(pts[0])
        } else {
            None
        }
    }

    /// Where the segment crosses the plane, if the crossing parameter lies
    /// inside `[0, 1]`; a segment parallel to the plane yields nothing.
    pub fn intersect_plane(&self, plane: &Plane) -> (r: Option<Vector3>)
        ensures
            (match r {
                Some(p) => {
                    &&& dot_s(plane@.normal, vsub_s(self.b@, self.a@)) != 0
                    &&& 0 <= intersect_plane_t_s(self.a@, self.b@, plane@) <= SCALE as int
                    &&& p@ == lerp_s(self.a@, self.b@, intersect_plane_t_s(self.a@, self.b@, plane@))
                },
                None => dot_s(plane@.normal, vsub_s(self.b@, self.a@)) == 0 || !(0 <= intersect_plane_t_s(
                    self.a@,
                    self.b@,
                    plane@,
                ) <= SCALE as int),
            }),
    {
        let dir = self.b.vsub(&self.a);
        let den = dot(&plane.normal, &dir);
        if den.0 == 0 {
            return None;
        }
        let t = fdiv(fneg(dot(&plane.normal, &self.a.vsub(&plane.get_position()))), den);
        if t.0 < 0 || t.0 > SCALE {
            None
        } else {
            Some(lerp(&self.a, &self.b, t))
        }
    }

    /// Whether the segment's direction is coplanar to the plane.
    pub fn is_coplanar(&self, plane: &Plane) -> (r: bool)
        ensures
            r == (dot_s(plane@.normal, vsub_s(self.b@, self.a@)) == 0),
    {
        dot(&plane.normal, &self.b.vsub(&self.a)).0 == 0
    }
}

/// `a (1 - t) + b t`.
fn lerp(a: &Vector3, b: &Vector3, t: Fx) -> (r: Vector3)
    ensures
        r@ == lerp_s(a@, b@, t@),
{
    a.scale(fsub(Fx(SCALE), t)).vadd(&b.scale(t))
}

} // verus!
