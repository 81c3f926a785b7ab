//! Rotation-matrix constructors: per axis, composed Euler, and axis-angle,
//! with the proof that the per-axis matrices are orthonormal with positive
//! determinant.

use crate::fixed::{
    fadd, fmul, fneg, fsub, lemma_smul_comm, lemma_smul_neg_l, lemma_smul_one, mag_s, sadd,
    smul, sneg, ssub, Fx, MAX_RAW, SCALE,
};
use crate::math::matrix::{at_s, col_s, det_s, mat_mul_s, mat_vec_s, mid_s, transposed_s, Mat3, M3};
use crate::math::trig::{
    lemma_sincos_unit, lemma_unit_pair_bounds, sincos, sincos_s, unit_defect_s, EPS_UNIT,
};
use crate::math::vector::{Vector3, V3};
use vstd::prelude::*;

verus! {

pub open spec fn rot_x_s(th: int) -> M3 {
    let sc = sincos_s(th);
    M3 {
        r0: V3 { x: SCALE as int, y: 0, z: 0 },
        r1: V3 { x: 0, y: sc.1, z: sneg(sc.0) },
        r2: V3 { x: 0, y: sc.0, z: sc.1 },
    }
}

pub open spec fn rot_y_s(th: int) -> M3 {
    let sc = sincos_s(th);
    M3 {
        r0: V3 { x: sc.1, y: 0, z: sc.0 },
        r1: V3 { x: 0, y: SCALE as int, z: 0 },
        r2: V3 { x: sneg(sc.0), y: 0, z: sc.1 },
    }
}

pub open spec fn rot_z_s(th: int) -> M3 {
    let sc = sincos_s(th);
    M3 {
        r0: V3 { x: sc.1, y: sneg(sc.0), z: 0 },
        r1: V3 { x: sc.0, y: sc.1, z: 0 },
        r2: V3 { x: 0, y: 0, z: SCALE as int },
    }
}

/// The Rodrigues matrix of a turn of `rad` radians about the unit axis:
/// `t v vT + c I + s [v]x` with `t = 1 - c`.
pub open spec fn axis_angle_raw_s(axis: V3, rad: int) -> M3 {
    let sc = sincos_s(rad);
    let c = sc.1;
    let s = sc.0;
    let t = ssub(SCALE as int, c);
    let x = axis.x;
    let y = axis.y;
    let z = axis.z;
    M3 {
        r0: V3 {
            x: sadd(smul(smul(t, x), x), c),
            y: ssub(smul(smul(t, x), y), smul(s, z)),
            z: sadd(smul(smul(t, x), z), smul(s, y)),
        },
        r1: V3 {
            x: sadd(smul(smul(t, x), y), smul(s, z)),
            y: sadd(smul(smul(t, y), y), c),
            z: ssub(smul(smul(t, y), z), smul(s, x)),
        },
        r2: V3 {
            x: ssub(smul(smul(t, x), z), smul(s, y)),
            y: sadd(smul(smul(t, y), z), smul(s, x)),
            z: sadd(smul(smul(t, z), z), c),
        },
    }
}

/// The axis-angle rotation, guarded: a matrix that fails the runtime
/// orthonormality check (a non-unit axis produces one) gives way to the
/// identity, so every result is a rotation up to `EPS_UNIT`.
pub open spec fn axis_angle_s(axis: V3, rad: int) -> M3 {
    let m = axis_angle_raw_s(axis, rad);
    if is_rotation_within_s(m, EPS_UNIT as int) && fixes_vector_within_s(
        m,
        axis,
        EPS_UNIT as int,
    ) {
        m
    } else {
        mid_s()
    }
}

/// The identity matrix is a rotation within any non-negative bound.
proof fn lemma_identity_is_rotation()
    ensures
        is_rotation_within_s(mid_s(), EPS_UNIT as int),
{
    lemma_smul_one(SCALE as int);
    let m = mid_s();
    let t = transposed_s(m);
    assert(col_s(t, 0) == m.r0);
    assert(col_s(t, 1) == m.r1);
    assert(col_s(t, 2) == m.r2);
    let d00 = ssub(smul(SCALE as int, SCALE as int), smul(0, 0));
    lemma_det_diag(d00);
    assert(det_s(m) == d00);
}

/// `m` times its own transpose is entrywise within `eps` of the identity,
/// and its determinant is positive.
pub open spec fn is_rotation_within_s(m: M3, eps: int) -> bool {
    let g = mat_mul_s(m, transposed_s(m));
    &&& mag_s(g.r0.x - SCALE as int) <= eps
    &&& mag_s(g.r1.y - SCALE as int) <= eps
    &&& mag_s(g.r2.z - SCALE as int) <= eps
    &&& mag_s(g.r0.y) <= eps
    &&& mag_s(g.r0.z) <= eps
    &&& mag_s(g.r1.x) <= eps
    &&& mag_s(g.r1.z) <= eps
    &&& mag_s(g.r2.x) <= eps
    &&& mag_s(g.r2.y) <= eps
    &&& det_s(m) > 0
}

/// `m` maps `v` to within `eps` of itself, coordinate by coordinate.
pub open spec fn fixes_vector_within_s(m: M3, v: V3, eps: int) -> bool {
    let w = mat_vec_s(m, v);
    &&& mag_s(w.x - v.x) <= eps
    &&& mag_s(w.y - v.y) <= eps
    &&& mag_s(w.z - v.z) <= eps
}

/// Facts shared by the three per-axis proofs.
proof fn lemma_axis_entries(th: int)
    ensures
        ({
            let s = sincos_s(th).0;
            let c = sincos_s(th).1;
            &&& unit_defect_s(s, c) <= EPS_UNIT as int
            &&& mag_s(s) <= 2 * SCALE as int
            &&& mag_s(c) <= 2 * SCALE as int
            &&& sneg(s) == -s
            &&& smul(-s, -s) == smul(s, s)
            &&& smul(c, s) == smul(s, c)
            &&& smul(-s, c) == -smul(s, c)
            &&& smul(c, -s) == -smul(s, c)
            &&& smul(-s, s) == -smul(s, s)
            &&& smul(s, -s) == -smul(s, s)
            &&& smul(c, c) + smul(s, s) <= MAX_RAW as int
            &&& 0 <= smul(s, s)
            &&& 0 <= smul(c, c)
            &&& smul(SCALE as int, s) == s
            &&& smul(s, SCALE as int) == s
            &&& smul(SCALE as int, c) == c
            &&& smul(c, SCALE as int) == c
            &&& smul(SCALE as int, -s) == -s
            &&& smul(-s, SCALE as int) == -s
        }),
{
    let s = sincos_s(th).0;
    let c = sincos_s(th).1;
    lemma_sincos_unit(th);
    lemma_unit_pair_bounds(s, c);
    assert((-s) * (-s) == s * s) by (nonlinear_arith);
    lemma_smul_comm(c, s);
    lemma_smul_comm(c, -s);
    lemma_smul_comm(s, -s);
    lemma_smul_neg_l(s, c);
    lemma_smul_neg_l(s, s);
    assert(s * s >= 0) by (nonlinear_arith);
    assert(c * c >= 0) by (nonlinear_arith);
    assert(0 <= smul(s, s));
    assert(0 <= smul(c, c));
    assert(smul(c, c) + smul(s, s) <= MAX_RAW as int);
    lemma_smul_one(s);
    lemma_smul_one(c);
    lemma_smul_one(-s);
    lemma_smul_comm(SCALE as int, s);
    lemma_smul_comm(SCALE as int, c);
    lemma_smul_comm(SCALE as int, -s);
}

/// The diagonal entry `smul(v, 1)` of the determinant expansion is `v`
/// itself for the in-range value `v`.
proof fn lemma_det_diag(v: int)
    requires
        -(MAX_RAW as int) <= v <= MAX_RAW as int,
    ensures
        smul(v, SCALE as int) == v,
{
    lemma_smul_one(v);
    lemma_smul_comm(SCALE as int, v);
}

/// Every matrix of `rot_x_s` is a rotation up to `EPS_UNIT`: its product
/// with its transpose is entrywise within `EPS_UNIT` of the identity and
/// its determinant is positive.
pub proof fn lemma_rot_x_rotation(th: int)
    ensures
        is_rotation_within_s(rot_x_s(th), EPS_UNIT as int),
{
    lemma_axis_entries(th);
    lemma_smul_one(SCALE as int);
    let s = sincos_s(th).0;
    let c = sincos_s(th).1;
    let m = rot_x_s(th);
    let t = transposed_s(m);
    assert(col_s(t, 0) == m.r0);
    assert(col_s(t, 1) == m.r1);
    assert(col_s(t, 2) == m.r2);
    let g = mat_mul_s(m, t);
    assert(g.r1.y == sadd(smul(c, c), smul(s, s)));
    assert(g.r2.z == sadd(smul(s, s), smul(c, c)));
    let d00 = ssub(smul(c, c), smul(-s, s));
    lemma_det_diag(d00);
    assert(det_s(m) == d00);
}

/// Every matrix of `rot_y_s` is a rotation up to `EPS_UNIT`.
pub proof fn lemma_rot_y_rotation(th: int)
    ensures
        is_rotation_within_s(rot_y_s(th), EPS_UNIT as int),
{
    lemma_axis_entries(th);
    lemma_smul_one(SCALE as int);
    let s = sincos_s(th).0;
    let c = sincos_s(th).1;
    let m = rot_y_s(th);
    let t = transposed_s(m);
    assert(col_s(t, 0) == m.r0);
    assert(col_s(t, 1) == m.r1);
    assert(col_s(t, 2) == m.r2);
    let g = mat_mul_s(m, t);
    assert(g.r0.x == sadd(smul(c, c), smul(s, s)));
    assert(g.r2.z == sadd(smul(s, s), smul(c, c)));
}

/// Every matrix of `rot_z_s` is a rotation up to `EPS_UNIT`.
pub proof fn lemma_rot_z_rotation(th: int)
    ensures
        is_rotation_within_s(rot_z_s(th), EPS_UNIT as int),
{
    lemma_axis_entries(th);
    lemma_smul_one(SCALE as int);
    let s = sincos_s(th).0;
    let c = sincos_s(th).1;
    let m = rot_z_s(th);
    let t = transposed_s(m);
    assert(col_s(t, 0) == m.r0);
    assert(col_s(t, 1) == m.r1);
    assert(col_s(t, 2) == m.r2);
    let g = mat_mul_s(m, t);
    assert(g.r0.x == sadd(smul(c, c), smul(s, s)));
    assert(g.r1.y == sadd(smul(s, s), smul(c, c)));
}

/// The Rodrigues matrix of the given axis and angle, unchecked.
#[verifier::rlimit(100)]
fn axis_angle_raw(normalized_axis: Vector3, rad: Fx) -> (m: Mat3)
    ensures
        m@ == axis_angle_raw_s(normalized_axis@, rad@),
{
    let sc = sincos(rad);
    let (s, c) = sc;
    let t = fsub(Fx(SCALE), c);
    let x = normalized_axis.x;
    let y = normalized_axis.y;
    let z = normalized_axis.z;
    Mat3::from_rows(
        Vector3::new(
            fadd(fmul(fmul(t, x), x), c),
            fsub(fmul(fmul(t, x), y), fmul(s, z)),
            fadd(fmul(fmul(t, x), z), fmul(s, y)),
        ),
        Vector3::new(
            fadd(fmul(fmul(t, x), y), fmul(s, z)),
            fadd(fmul(fmul(t, y), y), c),
            fsub(fmul(fmul(t, y), z), fmul(s, x)),
        ),
        Vector3::new(
            fsub(fmul(fmul(t, x), z), fmul(s, y)),
            fadd(fmul(fmul(t, y), z), fmul(s, x)),
            fadd(fmul(fmul(t, z), z), c),
        ),
    )
}

/// Whether a matrix is orthonormal with positive determinant within
/// `EPS_UNIT`.
#[verifier::rlimit(100)]
fn rotation_check(m: &Mat3) -> (ok: bool)
    ensures
        ok == is_rotation_within_s(m@, EPS_UNIT as int),
{
    let g = m.mul_mat(&m.transposed());
    let ok = entry_near(g.at(0, 0), SCALE) && entry_near(g.at(1, 1), SCALE) && entry_near(
        g.at(2, 2),
        SCALE,
    ) && entry_near(g.at(0, 1), 0) && entry_near(g.at(0, 2), 0) && entry_near(g.at(1, 0), 0)
        && entry_near(g.at(1, 2), 0) && entry_near(g.at(2, 0), 0) && entry_near(g.at(2, 1), 0)
        && m.determinant().0 > 0;
    proof {
        assert(col_s(transposed_s(m@), 0) == m@.r0);
        assert(col_s(transposed_s(m@), 1) == m@.r1);
        assert(col_s(transposed_s(m@), 2) == m@.r2);
    }
    ok
}

/// Whether a matrix moves `v` by at most `EPS_UNIT` in any coordinate.
fn fixes_vector_check(m: &Mat3, v: &Vector3) -> (ok: bool)
    ensures
        ok == fixes_vector_within_s(m@, v@, EPS_UNIT as int),
{
    let w = m.mul_vec(v);
    entries_near(w.x, v.x) && entries_near(w.y, v.y) && entries_near(w.z, v.z)
}

/// Whether two values lie within `EPS_UNIT` of one another.
fn entries_near(v: Fx, w: Fx) -> (r: bool)
    ensures
        r == (mag_s(v@ - w@) <= EPS_UNIT as int),
{
    let d = crate::fixed::fsub(v, w);
    -EPS_UNIT <= d.0 && d.0 <= EPS_UNIT
}

/// Whether a value lies within `EPS_UNIT` of the target.
fn entry_near(v: Fx, target: i64) -> (r: bool)
    requires
        -1_000_000_000 <= target <= 1_000_000_000,
    ensures
        r == (mag_s(v@ - target as int) <= EPS_UNIT as int),
{
    let d = crate::fixed::fsub(v, Fx(target));
    -EPS_UNIT <= d.0 && d.0 <= EPS_UNIT
}

/// Matrix rotation constructors; all angles are in radians.
pub struct RotationMatrix;

impl RotationMatrix {
    /// Rotation of `pitch` radians around the X axis.
    #[allow(non_snake_case)]
    pub fn X(pitch: Fx) -> (r: Mat3)
        ensures
            r@ == rot_x_s(pitch@),
            is_rotation_within_s(r@, EPS_UNIT as int),
    {
        proof {
            lemma_rot_x_rotation(pitch@);
        }
        let sc = sincos(pitch);
        let (s, c) = sc;
        Mat3::from_rows(
            Vector3::new(Fx(SCALE), Fx(0), Fx(0)),
            Vector3::new(Fx(0), c, fneg(s)),
            Vector3::new(Fx(0), s, c),
        )
    }

    /// Rotation of `yaw` radians around the Y axis.
    #[allow(non_snake_case)]
    pub fn Y(yaw: Fx) -> (r: Mat3)
        ensures
            r@ == rot_y_s(yaw@),
            is_rotation_within_s(r@, EPS_UNIT as int),
    {
        proof {
            lemma_rot_y_rotation(yaw@);
        }
        let sc = sincos(yaw);
        let (s, c) = sc;
        Mat3::from_rows(
            Vector3::new(c, Fx(0), s),
            Vector3::new(Fx(0), Fx(SCALE), Fx(0)),
            Vector3::new(fneg(s), Fx(0), c),
        )
    }

    /// Rotation of `roll` radians around the Z axis.
    #[allow(non_snake_case)]
    pub fn Z(roll: Fx) -> (r: Mat3)
        ensures
            r@ == rot_z_s(roll@),
            is_rotation_within_s(r@, EPS_UNIT as int),
    {
        proof {
            lemma_rot_z_rotation(roll@);
        }
        let sc = sincos(roll);
        let (s, c) = sc;
        Mat3::from_rows(
            Vector3::new(c, fneg(s), Fx(0)),
            Vector3::new(s, c, Fx(0)),
            Vector3::new(Fx(0), Fx(0), Fx(SCALE)),
        )
    }

    /// Z, then X, then Y rotation, as a matrix product.
    pub fn composed(x_axis_rad: Fx, y_axis_rad: Fx, z_axis_rad: Fx) -> (r: Mat3)
        ensures
            r@ == mat_mul_s(
                mat_mul_s(rot_z_s(z_axis_rad@), rot_x_s(x_axis_rad@)),
                rot_y_s(y_axis_rad@),
            ),
    {
        RotationMatrix::Z(z_axis_rad).mul_mat(&RotationMatrix::X(x_axis_rad)).mul_mat(
            &RotationMatrix::Y(y_axis_rad),
        )
    }

    /// Rotation of `rad` radians around the given unit axis (Rodrigues
    /// form), checked: a result that is not orthonormal with positive
    /// determinant within `EPS_UNIT`, or that moves its own axis by more
    /// than `EPS_UNIT`, gives way to the identity.
    pub fn axis_angle(normalized_axis: Vector3, rad: Fx) -> (r: Mat3)
        ensures
            r@ == axis_angle_s(normalized_axis@, rad@),
            is_rotation_within_s(r@, EPS_UNIT as int),
            fixes_vector_within_s(r@, normalized_axis@, EPS_UNIT as int) || r@ == mid_s(),
    {
        let m = axis_angle_raw(normalized_axis, rad);
        let ok = rotation_check(&m) && fixes_vector_check(&m, &normalized_axis);
        if ok {
            m
        } else {
            proof {
                lemma_identity_is_rotation();
            }
            Mat3::identity()
        }
    }
}

} // verus!
