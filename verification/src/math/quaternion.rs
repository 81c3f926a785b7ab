//! Quaternions: rotation composition, conversion to and from rotation
//! matrices, and the derivative form used by the integrator.

use crate::fixed::{
    clip_s, fadd, fdiv, fmax, fmul, fneg, fsqrt, fsub, mag_s, sadd, sdiv, smax, smul, sneg,
    ssqrt, ssub, Fx, SCALE,
};
use crate::math::helper;
use crate::math::matrix::{at_s, Mat3, M3};
use crate::math::trig::{sincos, sincos_s, EPS_UNIT};
use crate::math::vector::{Vector3, V3};
use vstd::prelude::*;

verus! {

/// Spec-level image of a quaternion: its four components as raw integers.
pub ghost struct Q4 {
    pub w: int,
    pub x: int,
    pub y: int,
    pub z: int,
}

/// A rotation quaternion (w, x, y, z) of fixed-point reals.
#[derive(Clone, Copy, Debug, PartialEq, Eq, Structural)]
pub struct Quaternion {
    pub w: Fx,
    pub x: Fx,
    pub y: Fx,
    pub z: Fx,
}

impl View for Quaternion {
    type V = Q4;

    open spec fn view(&self) -> Q4 {
        Q4 { w: self.w@, x: self.x@, y: self.y@, z: self.z@ }
    }
}

pub open spec fn qident_s() -> Q4 {
    Q4 { w: SCALE as int, x: 0, y: 0, z: 0 }
}

pub open spec fn qfrom_vec_s(v: V3) -> Q4 {
    Q4 { w: 0, x: v.x, y: v.y, z: v.z }
}

pub open spec fn qto_vec_s(q: Q4) -> V3 {
    V3 { x: q.x, y: q.y, z: q.z }
}

pub open spec fn qadd_s(a: Q4, b: Q4) -> Q4 {
    Q4 { w: sadd(a.w, b.w), x: sadd(a.x, b.x), y: sadd(a.y, b.y), z: sadd(a.z, b.z) }
}

/// Hamilton product.
pub open spec fn qmul_s(a: Q4, b: Q4) -> Q4 {
    Q4 {
        w: ssub(smul(a.w, b.w), sadd(sadd(smul(a.x, b.x), smul(a.y, b.y)), smul(a.z, b.z))),
        x: sadd(sadd(smul(a.w, b.x), smul(a.x, b.w)), ssub(smul(a.y, b.z), smul(b.y, a.z))),
        y: sadd(sadd(smul(a.w, b.y), smul(a.y, b.w)), ssub(smul(a.z, b.x), smul(b.z, a.x))),
        z: sadd(sadd(smul(a.w, b.z), smul(a.z, b.w)), ssub(smul(a.x, b.y), smul(b.x, a.y))),
    }
}

pub open spec fn qscale_s(a: Q4, k: int) -> Q4 {
    Q4 { w: smul(a.w, k), x: smul(a.x, k), y: smul(a.y, k), z: smul(a.z, k) }
}

pub open spec fn qdivs_s(a: Q4, k: int) -> Q4 {
    Q4 { w: sdiv(a.w, k), x: sdiv(a.x, k), y: sdiv(a.y, k), z: sdiv(a.z, k) }
}

pub open spec fn qconj_s(a: Q4) -> Q4 {
    Q4 { w: a.w, x: sneg(a.x), y: sneg(a.y), z: sneg(a.z) }
}

pub open spec fn sqmag_q_s(a: Q4) -> int {
    sadd(sadd(sadd(smul(a.w, a.w), smul(a.x, a.x)), smul(a.y, a.y)), smul(a.z, a.z))
}

pub open spec fn mag_q_s(a: Q4) -> int {
    ssqrt(sqmag_q_s(a))
}

pub open spec fn qinverse_s(a: Q4) -> Q4 {
    qdivs_s(qconj_s(a), sqmag_q_s(a))
}

/// `q (0,v) q*`, the rotation of `v` by `q`.
pub open spec fn qrotate_s(q: Q4, v: V3) -> V3 {
    qto_vec_s(qmul_s(qmul_s(q, qfrom_vec_s(v)), qconj_s(q)))
}

pub open spec fn from_rad_axis_s(rad: int, axis: V3) -> Q4 {
    let r2 = sdiv(rad, 2 * SCALE as int);
    let sc = sincos_s(r2);
    Q4 { w: sc.1, x: smul(axis.x, sc.0), y: smul(axis.y, sc.0), z: smul(axis.z, sc.0) }
}

pub open spec fn from_euler_rads_s(x_rad: int, y_rad: int, z_rad: int) -> Q4 {
    let half = (SCALE as int) / 2;
    let sc1 = sincos_s(smul(x_rad, half));
    let sc2 = sincos_s(smul(y_rad, half));
    let sc3 = sincos_s(smul(z_rad, half));
    let c1 = sc1.1;
    let s1 = sc1.0;
    let c2 = sc2.1;
    let s2 = sc2.0;
    let c3 = sc3.1;
    let s3 = sc3.0;
    Q4 {
        w: sadd(smul(smul(c1, c3), c2), smul(smul(s2, s1), s3)),
        x: sadd(smul(smul(c2, s1), c3), smul(smul(s2, c1), s3)),
        y: sadd(smul(smul(sneg(c2), s1), s3), smul(smul(s2, c1), c3)),
        z: ssub(smul(smul(c2, c1), s3), smul(smul(s2, s1), c3)),
    }
}

/// The rotation matrix of a unit quaternion.
pub open spec fn qto_mat3_s(q: Q4) -> M3 {
    let ww = smul(q.w, q.w);
    let xx = smul(q.x, q.x);
    let yy = smul(q.y, q.y);
    let zz = smul(q.z, q.z);
    let xy = smul(q.x, q.y);
    let wz = smul(q.w, q.z);
    let wy = smul(q.w, q.y);
    let xz = smul(q.x, q.z);
    let yz = smul(q.y, q.z);
    let wx = smul(q.w, q.x);
    let two = 2 * SCALE as int;
    M3 {
        r0: V3 {
            x: ssub(ssub(sadd(ww, xx), yy), zz),
            y: smul(two, ssub(xy, wz)),
            z: smul(two, sadd(wy, xz)),
        },
        r1: V3 {
            x: smul(two, sadd(xy, wz)),
            y: ssub(sadd(ssub(ww, xx), yy), zz),
            z: smul(two, ssub(yz, wx)),
        },
        r2: V3 {
            x: smul(two, ssub(xz, wy)),
            y: smul(two, sadd(wx, yz)),
            z: sadd(ssub(ssub(ww, xx), yy), zz),
        },
    }
}

/// Magnitude of `a` carrying the sign of `b` (non-negative for `b == 0`).
pub open spec fn copysign_s(a: int, b: int) -> int {
    if b < 0 {
        clip_s(-mag_s(a))
    } else {
        clip_s(mag_s(a))
    }
}

pub open spec fn from_mat3_s(m: M3) -> Q4 {
    let one = SCALE as int;
    let two = 2 * SCALE as int;
    let w = sdiv(ssqrt(smax(0, sadd(sadd(sadd(one, at_s(m, 0, 0)), at_s(m, 1, 1)), at_s(m, 2, 2)))), two);
    let x = sdiv(ssqrt(smax(0, sadd(ssub(ssub(one, at_s(m, 1, 1)), at_s(m, 2, 2)), at_s(m, 0, 0)))), two);
    let y = sdiv(ssqrt(smax(0, sadd(ssub(ssub(one, at_s(m, 0, 0)), at_s(m, 2, 2)), at_s(m, 1, 1)))), two);
    let z = sdiv(ssqrt(smax(0, sadd(ssub(ssub(one, at_s(m, 0, 0)), at_s(m, 1, 1)), at_s(m, 2, 2)))), two);
    Q4 {
        w: w,
        x: copysign_s(x, ssub(at_s(m, 2, 1), at_s(m, 1, 2))),
        y: copysign_s(y, ssub(at_s(m, 0, 2), at_s(m, 2, 0))),
        z: copysign_s(z, ssub(at_s(m, 1, 0), at_s(m, 0, 1))),
    }
}

/// `q + (qv q) / 2`: one Euler step of the orientation under the angular
/// velocity packed in `qv`.
pub open spec fn qderivative_s(q: Q4, qv: Q4) -> Q4 {
    qadd_s(q, qscale_s(qmul_s(qv, q), (SCALE as int) / 2))
}

/// The quaternion divided by its own magnitude, guarded: a zero magnitude,
/// or a result whose squared norm strays farther than `EPS_UNIT` from 1,
/// yields the identity quaternion instead.
pub open spec fn qrenorm_s(q: Q4) -> Q4 {
    let n = mag_q_s(q);
    if n == 0 {
        qident_s()
    } else {
        let q1 = qdivs_s(q, n);
        if mag_s(sqmag_q_s(q1) - SCALE as int) <= EPS_UNIT as int {
            q1
        } else {
            qident_s()
        }
    }
}

/// Distance of the squared norm from 1.
pub open spec fn q_unit_defect_s(q: Q4) -> int {
    mag_s(sqmag_q_s(q) - SCALE as int)
}

impl Quaternion {
    pub fn from_vec(v: &Vector3) -> (r: Quaternion)
        ensures
            r@ == qfrom_vec_s(v@),
    {
        Quaternion { w: Fx(0), x: v.x, y: v.y, z: v.z }
    }

    pub fn to_vec(q: &Quaternion) -> (r: Vector3)
        ensures
            r@ == qto_vec_s(q@),
    {
        Vector3::new(q.x, q.y, q.z)
    }

    pub fn identity() -> (r: Quaternion)
        ensures
            r@ == qident_s(),
    {
        Quaternion { w: Fx(SCALE), x: Fx(0), y: Fx(0), z: Fx(0) }
    }

    /// Rotation of `rad` radians around the given unit axis.
    pub fn from_rad_axis(rad: Fx, axis: Vector3) -> (r: Quaternion)
        ensures
            r@ == from_rad_axis_s(rad@, axis@),
    {
        let r2 = fdiv(rad, Fx(2 * SCALE));
        let sc = sincos(r2);
        Quaternion {
            w: sc.1,
            x: fmul(axis.x, sc.0),
            y: fmul(axis.y, sc.0),
            z: fmul(axis.z, sc.0),
        }
    }

    /// Rotation given by Euler angles in degrees (intrinsic Z then X then Y).
    pub fn from_euler_angles(x: Fx, y: Fx, z: Fx) -> (r: Quaternion)
        ensures
            r@ == from_euler_rads_s(
                helper::angle_2_rad_s(x@),
                helper::angle_2_rad_s(y@),
                helper::angle_2_rad_s(z@),
            ),
    {
        Quaternion::from_euler_rads(
            helper::angle_2_rad(x),
            helper::angle_2_rad(y),
            helper::angle_2_rad(z),
        )
    }

    /// Rotation given by Euler angles in radians (intrinsic Z then X then Y).
    pub fn from_euler_rads(x_rad: Fx, y_rad: Fx, z_rad: Fx) -> (r: Quaternion)
        ensures
            r@ == from_euler_rads_s(x_rad@, y_rad@, z_rad@),
    {
        let half = Fx(SCALE / 2);
        let sc1 = sincos(fmul(x_rad, half));
        let sc2 = sincos(fmul(y_rad, half));
        let sc3 = sincos(fmul(z_rad, half));
        let (s1, c1) = sc1;
        let (s2, c2) = sc2;
        let (s3, c3) = sc3;
        Quaternion {
            w: fadd(fmul(fmul(c1, c3), c2), fmul(fmul(s2, s1), s3)),
            x: fadd(fmul(fmul(c2, s1), c3), fmul(fmul(s2, c1), s3)),
            y: fadd(fmul(fmul(fneg(c2), s1), s3), fmul(fmul(s2, c1), c3)),
            z: fsub(fmul(fmul(c2, c1), s3), fmul(fmul(s2, s1), c3)),
        }
    }

    /// The rotation matrix of this (unit) quaternion.
    pub fn to_mat3(&self) -> (r: Mat3)
        ensures
            r@ == qto_mat3_s(self@),
    {
        let ww = fmul(self.w, self.w);
        let xx = fmul(self.x, self.x);
        let yy = fmul(self.y, self.y);
        let zz = fmul(self.z, self.z);
        let xy = fmul(self.x, self.y);
        let wz = fmul(self.w, self.z);
        let wy = fmul(self.w, self.y);
        let xz = fmul(self.x, self.z);
        let yz = fmul(self.y, self.z);
        let wx = fmul(self.w, self.x);
        let two = Fx(2 * SCALE);
        Mat3::from_rows(
            Vector3::new(
                fsub(fsub(fadd(ww, xx), yy), zz),
                fmul(two, fsub(xy, wz)),
                fmul(two, fadd(wy, xz)),
            ),
            Vector3::new(
                fmul(two, fadd(xy, wz)),
                fsub(fadd(fsub(ww, xx), yy), zz),
                fmul(two, fsub(yz, wx)),
            ),
            Vector3::new(
                fmul(two, fsub(xz, wy)),
                fmul(two, fadd(wx, yz)),
                fadd(fsub(fsub(ww, xx), yy), zz),
            ),
        )
    }

    /// The quaternion of a rotation matrix, canonicalized with a
    /// non-negative `w`.
    pub fn from_mat3(m: &Mat3) -> (r: Quaternion)
        ensures
            r@ == from_mat3_s(m@),
            r.w@ >= 0,
    {
        proof {
            let one = SCALE as int;
            let arg = smax(
                0,
                sadd(sadd(sadd(one, at_s(m@, 0, 0)), at_s(m@, 1, 1)), at_s(m@, 2, 2)),
            );
            if arg > 0 {
                crate::fixed::lemma_isqrt_exists(arg * (SCALE as int));
                assert(crate::fixed::is_isqrt(
                    arg * (SCALE as int),
                    crate::fixed::isqrt_s(arg * (SCALE as int)),
                ));
            }
        }
        let one = Fx(SCALE);
        let two = Fx(2 * SCALE);
        let zero = Fx(0);
        let w = fdiv(
            fsqrt(fmax(zero, fadd(fadd(fadd(one, m.at(0, 0)), m.at(1, 1)), m.at(2, 2)))),
            two,
        );
        let x = fdiv(
            fsqrt(fmax(zero, fadd(fsub(fsub(one, m.at(1, 1)), m.at(2, 2)), m.at(0, 0)))),
            two,
        );
        let y = fdiv(
            fsqrt(fmax(zero, fadd(fsub(fsub(one, m.at(0, 0)), m.at(2, 2)), m.at(1, 1)))),
            two,
        );
        let z = fdiv(
            fsqrt(fmax(zero, fadd(fsub(fsub(one, m.at(0, 0)), m.at(1, 1)), m.at(2, 2)))),
            two,
        );
        Quaternion {
            w,
            x: copysign(x, fsub(m.at(2, 1), m.at(1, 2))),
            y: copysign(y, fsub(m.at(0, 2), m.at(2, 0))),
            z: copysign(z, fsub(m.at(1, 0), m.at(0, 1))),
        }
    }

    pub fn conjugate(&self) -> (r: Quaternion)
        ensures
            r@ == qconj_s(self@),
    {
        Quaternion { w: self.w, x: fneg(self.x), y: fneg(self.y), z: fneg(self.z) }
    }

    pub fn squared_magnitude(&self) -> (r: Fx)
        ensures
            r@ == sqmag_q_s(self@),
    {
        fadd(
            fadd(fadd(fmul(self.w, self.w), fmul(self.x, self.x)), fmul(self.y, self.y)),
            fmul(self.z, self.z),
        )
    }

    pub fn magnitude(&self) -> (r: Fx)
        ensures
            r@ == mag_q_s(self@),
    {
        fsqrt(self.squared_magnitude())
    }

    pub fn inverse(&self) -> (r: Quaternion)
        ensures
            r@ == qinverse_s(self@),
    {
        self.conjugate().qdivs(self.squared_magnitude())
    }

    /// Rotate a vector by this quaternion.
    pub fn rotate(&self, v: &Vector3) -> (r: Vector3)
        ensures
            r@ == qrotate_s(self@, v@),
    {
        let q = self.qmul(&Quaternion::from_vec(v)).qmul(&self.conjugate());
        Quaternion::to_vec(&q)
    }

    /// `self + (quat_from_vec * self) / 2`.
    pub fn quaternion_derivative(&self, quat_from_vec: Quaternion) -> (r: Quaternion)
        ensures
            r@ == qderivative_s(self@, quat_from_vec@),
    {
        self.qadd(&quat_from_vec.qmul(self).qscale(Fx(SCALE / 2)))
    }

    pub fn qadd(&self, rhs: &Quaternion) -> (r: Quaternion)
        ensures
            r@ == qadd_s(self@, rhs@),
    {
        Quaternion {
            w: fadd(self.w, rhs.w),
            x: fadd(self.x, rhs.x),
            y: fadd(self.y, rhs.y),
            z: fadd(self.z, rhs.z),
        }
    }

    /// Hamilton product.
    pub fn qmul(&self, rhs: &Quaternion) -> (r: Quaternion)
        ensures
            r@ == qmul_s(self@, rhs@),
    {
        Quaternion {
            w: fsub(
                fmul(self.w, rhs.w),
                fadd(fadd(fmul(self.x, rhs.x), fmul(self.y, rhs.y)), fmul(self.z, rhs.z)),
            ),
            x: fadd(
                fadd(fmul(self.w, rhs.x), fmul(self.x, rhs.w)),
                fsub(fmul(self.y, rhs.z), fmul(rhs.y, self.z)),
            ),
            y: fadd(
                fadd(fmul(self.w, rhs.y), fmul(self.y, rhs.w)),
                fsub(fmul(self.z, rhs.x), fmul(rhs.z, self.x)),
            ),
            z: fadd(
                fadd(fmul(self.w, rhs.z), fmul(self.z, rhs.w)),
                fsub(fmul(self.x, rhs.y), fmul(rhs.x, self.y)),
            ),
        }
    }

    pub fn qscale(&self, rhs: Fx) -> (r: Quaternion)
        ensures
            r@ == qscale_s(self@, rhs@),
    {
        Quaternion {
            w: fmul(self.w, rhs),
            x: fmul(self.x, rhs),
            y: fmul(self.y, rhs),
            z: fmul(self.z, rhs),
        }
    }

    pub fn qdivs(&self, rhs: Fx) -> (r: Quaternion)
        ensures
            r@ == qdivs_s(self@, rhs@),
    {
        Quaternion {
            w: fdiv(self.w, rhs),
            x: fdiv(self.x, rhs),
            y: fdiv(self.y, rhs),
            z: fdiv(self.z, rhs),
        }
    }

    /// Divide by the own magnitude, falling back to the identity quaternion
    /// when the magnitude vanishes or the quotient fails the unit check.
    /// The result always has its squared norm within `EPS_UNIT` of 1.
    pub fn renormalized(&self) -> (r: Quaternion)
        ensures
            r@ == qrenorm_s(self@),
            q_unit_defect_s(r@) <= EPS_UNIT as int,
    {
        let n = self.magnitude();
        proof {
            crate::fixed::lemma_smul_one(SCALE as int);
        }
        if n.0 == 0 {
            Quaternion::identity()
        } else {
            let q1 = self.qdivs(n);
            let defect = fsub(q1.squared_magnitude(), Fx(SCALE));
            if -EPS_UNIT <= defect.0 && defect.0 <= EPS_UNIT {
                q1
            } else {
                Quaternion::identity()
            }
        }
    }
}

/// Magnitude of `a` with the sign of `b` (non-negative for `b == 0`).
pub fn copysign(a: Fx, b: Fx) -> (r: Fx)
    ensures
        r@ == copysign_s(a@, b@),
{
    let m = crate::fixed::fabs(a);
    if b.0 < 0 { fneg(m) } else { m }
}

} // verus!
