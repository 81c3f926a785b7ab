//! Rigid transforms: a rotation matrix paired with a translation, and the
//! per-axis rotation constructors.

use crate::fixed::{fmul, smul, Fx, MAX_RAW, SCALE};
use crate::math::matrix::{mat_mul_s, mat_vec_s, mid_s, Mat3, M3};
use crate::math::quaternion::{from_euler_rads_s, qto_mat3_s, Quaternion};
use crate::math::rotation_matrix::{rot_x_s, rot_y_s, rot_z_s, RotationMatrix};
use crate::math::vector::{vadd_s, Vector3, V3};
use vstd::prelude::*;

verus! {

/// Spec-level image of a transform.
pub ghost struct Tf {
    pub rotation: M3,
    pub translation: V3,
}

/// Rotation constructors around the coordinate axes (matrix form built from
/// the quaternion composition for `composed`).
pub struct Rotation;

impl Rotation {
    /// Rotation of `pitch` radians around the X axis.
    #[allow(non_snake_case)]
    pub fn X(pitch: Fx) -> (r: Mat3)
        ensures
            r@ == rot_x_s(pitch@),
    {
        RotationMatrix::X(pitch)
    }

    /// Rotation of `yaw` radians around the Y axis.
    #[allow(non_snake_case)]
    pub fn Y(yaw: Fx) -> (r: Mat3)
        ensures
            r@ == rot_y_s(yaw@),
    {
        RotationMatrix::Y(yaw)
    }

    /// Rotation of `roll` radians around the Z axis.
    #[allow(non_snake_case)]
    pub fn Z(roll: Fx) -> (r: Mat3)
        ensures
            r@ == rot_z_s(roll@),
    {
        RotationMatrix::Z(roll)
    }

    /// The rotation that turns `z_axis_rad` around Z, then `x_axis_rad`
    /// around X, then `y_axis_rad` around Y, built through the equivalent
    /// quaternion.
    pub fn composed(x_axis_rad: Fx, y_axis_rad: Fx, z_axis_rad: Fx) -> (r: Mat3)
        ensures
            r@ == qto_mat3_s(from_euler_rads_s(x_axis_rad@, y_axis_rad@, z_axis_rad@)),
    {
        Quaternion::from_euler_rads(x_axis_rad, y_axis_rad, z_axis_rad).to_mat3()
    }
}

/// A rotation (also carrying any scale) and a translation.
#[derive(Clone, Copy, Debug, PartialEq, Eq, Structural)]
pub struct Transform {
    pub rotation: Mat3,
    pub translation: Vector3,
}

impl View for Transform {
    type V = Tf;

    open spec fn view(&self) -> Tf {
        Tf { rotation: self.rotation@, translation: self.translation@ }
    }
}

pub open spec fn tident_s() -> Tf {
    Tf { rotation: mid_s(), translation: V3 { x: 0, y: 0, z: 0 } }
}

/// `R p + t`.
pub open spec fn transform_point_s(t: Tf, p: V3) -> V3 {
    vadd_s(mat_vec_s(t.rotation, p), t.translation)
}

/// `R v`.
pub open spec fn transform_vec_s(t: Tf, v: V3) -> V3 {
    mat_vec_s(t.rotation, v)
}

/// Composition as the engine uses it for local chaining: rotations multiply,
/// translations add.
pub open spec fn transform_mul_s(a: Tf, b: Tf) -> Tf {
    Tf {
        rotation: mat_mul_s(a.rotation, b.rotation),
        translation: vadd_s(a.translation, b.translation),
    }
}

impl Transform {
    /// Rotation matrix with the scales multiplied onto its diagonal, plus a
    /// translation.
    pub fn new(scaling_vec: Vector3, rotation_mat: Mat3, translation_vec: Vector3) -> (r:
        Transform)
        ensures
            r@.translation == translation_vec@,
            crate::math::matrix::at_s(r@.rotation, 0, 0) == smul(
                crate::math::matrix::at_s(rotation_mat@, 0, 0),
                scaling_vec@.x,
            ),
            crate::math::matrix::at_s(r@.rotation, 1, 1) == smul(
                crate::math::matrix::at_s(rotation_mat@, 1, 1),
                scaling_vec@.y,
            ),
            crate::math::matrix::at_s(r@.rotation, 2, 2) == smul(
                crate::math::matrix::at_s(rotation_mat@, 2, 2),
                scaling_vec@.z,
            ),
            forall|i: int, j: int|
                0 <= i < 3 && 0 <= j < 3 && i != j ==> crate::math::matrix::at_s(r@.rotation, i, j)
                    == crate::math::matrix::at_s(rotation_mat@, i, j),
    {
        let mut r = rotation_mat;
        let d0 = fmul(r.at(0, 0), scaling_vec.x);
        r.set_at(0, 0, d0);
        let d1 = fmul(r.at(1, 1), scaling_vec.y);
        r.set_at(1, 1, d1);
        let d2 = fmul(r.at(2, 2), scaling_vec.z);
        r.set_at(2, 2, d2);
        Transform { rotation: r, translation: translation_vec }
    }

    pub fn identity() -> (r: Transform)
        ensures
            r@ == tident_s(),
    {
        Transform { rotation: Mat3::identity(), translation: Vector3::zeros() }
    }

    /// Pure scaling transform.
    pub fn scaling(scales: Vector3) -> (r: Transform)
        ensures
            r@ == (Tf {
                rotation: crate::math::matrix::mdiag_s(scales@),
                translation: V3 { x: 0, y: 0, z: 0 },
            }),
    {
        Transform { rotation: Mat3::diag(scales), translation: Vector3::zeros() }
    }

    /// Pure translation transform.
    pub fn translation(t: Vector3) -> (r: Transform)
        ensures
            r@ == (Tf { rotation: mid_s(), translation: t@ }),
    {
        Transform { rotation: Mat3::identity(), translation: t }
    }

    /// Pure rotation transform.
    pub fn rotation(rot: Mat3) -> (r: Transform)
        ensures
            r@ == (Tf { rotation: rot@, translation: V3 { x: 0, y: 0, z: 0 } }),
    {
        Transform { rotation: rot, translation: Vector3::zeros() }
    }

    /// Apply to a point: `R p + t`.
    pub fn transform(&self, point: &Vector3) -> (r: Vector3)
        ensures
            r@ == transform_point_s(self@, point@),
    {
        self.rotation.mul_vec(point).vadd(&self.translation)
    }

    /// Apply to a direction: `R v`.
    pub fn transform_vec(&self, vec: &Vector3) -> (r: Vector3)
        ensures
            r@ == transform_vec_s(self@, vec@),
    {
        self.rotation.mul_vec(vec)
    }

    /// The translation part, read as a position.
    pub fn position(&self) -> (r: Vector3)
        ensures
            r@ == self@.translation,
    {
        self.translation
    }

    /// Compose with another transform: rotations multiply, translations add.
    pub fn mul_transform(&self, o: &Transform) -> (r: Transform)
        ensures
            r@ == transform_mul_s(self@, o@),
    {
        Transform {
            rotation: self.rotation.mul_mat(&o.rotation),
            translation: self.translation.vadd(&o.translation),
        }
    }
}

/// The identity transform maps every representable point to itself.
pub proof fn lemma_identity_transform(p: V3)
    requires
        mag_s(p.x) <= MAX_RAW as int,
        mag_s(p.y) <= MAX_RAW as int,
        mag_s(p.z) <= MAX_RAW as int,
    ensures
        transform_point_s(tident_s(), p) == p,
{
    crate::fixed::lemma_smul_one(p.x);
    crate::fixed::lemma_smul_one(p.y);
    crate::fixed::lemma_smul_one(p.z);
}

use crate::fixed::mag_s;

} // verus!
