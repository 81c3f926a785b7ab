//! The rigid body: mass and inertia state, accumulated force and torque,
//! and semi-implicit Euler integration with a quaternion-derivative
//! orientation update.

use super::consts;
use crate::engine::collision::CollisionObject;
use crate::engine::shapes::{shape_inertia_s, shape_transform_set_s};
use crate::fixed::{fdiv, sdiv, Fx, SCALE};
use crate::math::matrix::{det_s, inverse_s, mat_mul_s, mat_vec_s, transposed_s, Mat3, M3};
use crate::math::quaternion::{
    from_mat3_s, q_unit_defect_s, qderivative_s, qfrom_vec_s, qrenorm_s, qscale_s, qto_mat3_s,
    Quaternion,
};
use crate::math::transform::Transform;
use crate::math::trig::EPS_UNIT;
use crate::math::vector::{
    cross, cross_s, vadd_s, vmulv_s, vscale_s, vsub_s, Vector3, V3,
};
use vstd::prelude::*;

verus! {

/// A rigid body of the simulation.
pub struct RigidBody {
    pub linear_velocity: Vector3,
    pub angular_velocity: Vector3,
    pub total_force: Vector3,
    pub total_torque: Vector3,
    pub translation_moving_axis: Vector3,
    pub rotation_moving_axis: Vector3,
    pub collision_object_id: Option<usize>,
    pub inertia_matrix: Mat3,
    pub inv_inertia_matrix: Mat3,
    pub inv_inertia_tensor: Mat3,
    pub mass: Fx,
    pub inv_mass: Fx,
    pub transform: Transform,
    pub id: usize,
    pub restitution_coef: Fx,
    pub is_static: bool,
    pub center_of_mass: Vector3,
    pub local_center_of_mass: Vector3,
}

/// The inverse a rotation matrix gets in the tensor update: the proper
/// inverse, or the transpose when the determinant vanishes (for a rotation
/// matrix the two agree; the branch keeps the update total).
pub open spec fn rinv_def_s(m: M3) -> M3 {
    if det_s(m) != 0 {
        inverse_s(m)
    } else {
        transposed_s(m)
    }
}

/// The orientation after one quaternion-derivative step: convert, add the
/// scaled derivative, renormalize, convert back.
pub open spec fn rb_rotation_after_s(rot: M3, qv: Quaternion) -> M3 {
    qto_mat3_s(qrenorm_s(qderivative_s(from_mat3_s(rot), qv@)))
}

impl RigidBody {
    /// A body at the given transform; a static body gets zero mass and
    /// zero moving axes.
    pub fn new(transform: Transform, mass: Fx, is_static: bool) -> (r: RigidBody)
        ensures
            r.linear_velocity@ == (V3 { x: 0, y: 0, z: 0 }),
            r.angular_velocity@ == (V3 { x: 0, y: 0, z: 0 }),
            r.total_force@ == (V3 { x: 0, y: 0, z: 0 }),
            r.total_torque@ == (V3 { x: 0, y: 0, z: 0 }),
            r.translation_moving_axis@ == (if is_static {
                V3 { x: 0, y: 0, z: 0 }
            } else {
                V3 { x: SCALE as int, y: SCALE as int, z: SCALE as int }
            }),
            r.rotation_moving_axis == r.translation_moving_axis,
            r.collision_object_id is None,
            r.inertia_matrix@ == crate::math::matrix::mzero_s(),
            r.inv_inertia_matrix@ == crate::math::matrix::mzero_s(),
            r.inv_inertia_tensor@ == crate::math::matrix::mzero_s(),
            r.mass@ == (if is_static {
                0int
            } else {
                mass@
            }),
            r.inv_mass@ == (if is_static || mass@ == 0 {
                0int
            } else {
                sdiv(SCALE as int, mass@)
            }),
            r.transform == transform,
            r.id == 0usize,
            r.restitution_coef@ == consts::RESTITUTION_RAW as int,
            r.is_static == is_static,
            r.center_of_mass == transform.translation,
            r.local_center_of_mass@ == (V3 { x: 0, y: 0, z: 0 }),
    {
        let mut translation_moving_axis = Vector3::ones();
        let mut rotation_moving_axis = Vector3::ones();
        let mut mass = mass;
        let mut inv_mass = Fx(0);

        if mass.0 != 0 {
            inv_mass = fdiv(Fx(SCALE), mass);
        }
        if is_static {
            translation_moving_axis = Vector3::value(Fx(0));
            rotation_moving_axis = Vector3::value(Fx(0));
            mass = Fx(0);
            inv_mass = Fx(0);
        }

        RigidBody {
            linear_velocity: Vector3::zeros(),
            angular_velocity: Vector3::zeros(),
            total_force: Vector3::zeros(),
            total_torque: Vector3::zeros(),
            translation_moving_axis,
            rotation_moving_axis,
            collision_object_id: None,
            inertia_matrix: Mat3::zero(),
            inv_inertia_matrix: Mat3::zero(),
            inv_inertia_tensor: Mat3::zero(),
            mass,
            inv_mass,
            transform,
            id: 0,
            restitution_coef: Fx(consts::RESTITUTION_RAW),
            is_static,
            center_of_mass: transform.translation,
            local_center_of_mass: Vector3::origin(),
        }
    }

    pub fn center_of_mass(&self) -> (r: Vector3)
        ensures
            r == self.center_of_mass,
    {
        self.center_of_mass
    }

    /// The id of the linked collision object; the body must be linked.
    pub fn collision_object_id(&self) -> (r: usize)
        requires
            self.collision_object_id is Some,
        ensures
            self.collision_object_id == Some(r),
    {
        match self.collision_object_id {
            Some(id) => id,
            None => vstd::pervasive::unreached(),
        }
    }

    pub fn mass(&self) -> (r: Fx)
        ensures
            r == self.mass,
    {
        self.mass
    }

    pub fn inv_mass(&self) -> (r: Fx)
        ensures
            r == self.inv_mass,
    {
        self.inv_mass
    }

    pub fn inv_inertia_tensor(&self) -> (r: Mat3)
        ensures
            r == self.inv_inertia_tensor,
    {
        self.inv_inertia_tensor
    }

    /// Replace the mass and rebuild the inertia state from the shape.
    pub fn set_mass(&mut self, mass: Fx, co: &CollisionObject)
        requires
            mass@ != 0,
            !(co.shape is Plane),
            det_s(shape_inertia_s(&co.shape, mass@)) != 0,
        ensures
            final(self).mass == mass,
            final(self).inv_mass@ == sdiv(SCALE as int, mass@),
            final(self).inertia_matrix@ == shape_inertia_s(&co.shape, mass@),
            final(self).inv_inertia_matrix@ == inverse_s(shape_inertia_s(&co.shape, mass@)),
            *final(self) == (RigidBody {
                mass: final(self).mass,
                inv_mass: final(self).inv_mass,
                inertia_matrix: final(self).inertia_matrix,
                inv_inertia_matrix: final(self).inv_inertia_matrix,
                ..*old(self)
            }),
    {
        self.mass = mass;
        self.inv_mass = fdiv(Fx(SCALE), self.mass);
        self.inertia_matrix = co.shape.compute_inertia_matrix(self.mass);
        self.inv_inertia_matrix = self.inertia_matrix.inverse();
    }

    /// The world-frame inertia tensor `R I R^-1`.
    pub fn inertia_tensor(&self) -> (r: Mat3)
        requires
            det_s(self.transform.rotation@) != 0,
        ensures
            r@ == mat_mul_s(
                mat_mul_s(self.transform.rotation@, self.inertia_matrix@),
                inverse_s(self.transform.rotation@),
            ),
    {
        self.transform.rotation.mul_mat(&self.inertia_matrix).mul_mat(
            &self.transform.rotation.inverse(),
        )
    }

    /// Link this body and its collision object both ways, mirror the
    /// transform onto the shape, and (for a dynamic body) build the
    /// inertia state from the shape.
    pub fn link_and_set_collision_object(&mut self, co: &mut CollisionObject)
        requires
            !old(self).is_static ==> !(old(co).shape is Plane) && det_s(
                shape_inertia_s(&old(co).shape, old(self).mass@),
            ) != 0,
        ensures
            final(co).rigidbody_id == Some(old(self).id),
            final(co).is_static == old(self).is_static,
            final(co).id == old(co).id,
            final(co).enabled == old(co).enabled,
            shape_transform_set_s(&old(co).shape, &final(co).shape, old(self).transform@),
            final(self).collision_object_id == Some(old(co).id),
            (!old(self).is_static ==> final(self).inertia_matrix@ == shape_inertia_s(
                &old(co).shape,
                old(self).mass@,
            ) && final(self).inv_inertia_matrix@ == inverse_s(
                shape_inertia_s(&old(co).shape, old(self).mass@),
            )),
            (old(self).is_static ==> final(self).inertia_matrix == old(self).inertia_matrix
                && final(self).inv_inertia_matrix == old(self).inv_inertia_matrix),
            *final(self) == (RigidBody {
                collision_object_id: final(self).collision_object_id,
                inertia_matrix: final(self).inertia_matrix,
                inv_inertia_matrix: final(self).inv_inertia_matrix,
                ..*old(self)
            }),
    {
        co.rigidbody_id = Some(self.id);
        co.is_static = self.is_static;
        self.collision_object_id = Some(co.id);
        co.shape.set_transform(self.transform);
        if !self.is_static {
            self.inertia_matrix = co.shape.compute_inertia_matrix(self.mass);
            self.inv_inertia_matrix = self.inertia_matrix.inverse();
        }
    }

    /// Make the body static: zero velocities are not touched here, but
    /// masses and moving axes are zeroed.
    pub fn set_static(&mut self)
        ensures
            final(self).is_static == true,
            final(self).translation_moving_axis@ == (V3 { x: 0, y: 0, z: 0 }),
            final(self).rotation_moving_axis@ == (V3 { x: 0, y: 0, z: 0 }),
            final(self).mass@ == 0,
            final(self).inv_mass@ == 0,
            *final(self) == (RigidBody {
                is_static: true,
                translation_moving_axis: final(self).translation_moving_axis,
                rotation_moving_axis: final(self).rotation_moving_axis,
                mass: final(self).mass,
                inv_mass: final(self).inv_mass,
                ..*old(self)
            }),
    {
        self.is_static = true;
        self.translation_moving_axis = Vector3::value(Fx(0));
        self.rotation_moving_axis = Vector3::value(Fx(0));
        self.mass = Fx(0);
        self.inv_mass = Fx(0);
    }

    /// Velocity half of the Euler step: fold the accumulated force and
    /// torque into the velocities (with air resistance on the linear part)
    /// and reset the accumulators.
    pub fn integrate_velocities(&mut self, dt: Fx)
        ensures
            final(self).linear_velocity@ == vadd_s(
                old(self).linear_velocity@,
                vscale_s(
                    vscale_s(
                        vscale_s(old(self).total_force@, old(self).inv_mass@),
                        dt@,
                    ),
                    consts::AIR_RESISTANCE_RAW as int,
                ),
            ),
            final(self).angular_velocity@ == vadd_s(
                old(self).angular_velocity@,
                vscale_s(
                    mat_vec_s(old(self).inv_inertia_tensor@, old(self).total_torque@),
                    dt@,
                ),
            ),
            final(self).total_force@ == (V3 { x: 0, y: 0, z: 0 }),
            final(self).total_torque@ == (V3 { x: 0, y: 0, z: 0 }),
            *final(self) == (RigidBody {
                linear_velocity: final(self).linear_velocity,
                angular_velocity: final(self).angular_velocity,
                total_force: final(self).total_force,
                total_torque: final(self).total_torque,
                ..*old(self)
            }),
    {
        let coef_air_resistance = Fx(consts::AIR_RESISTANCE_RAW);
        self.linear_velocity = self.linear_velocity.vadd(
            &self.total_force.scale(self.inv_mass).scale(dt).scale(coef_air_resistance),
        );
        self.angular_velocity = self.angular_velocity.vadd(
            &self.inv_inertia_tensor.mul_vec(&self.total_torque).scale(dt),
        );
        self.total_force = Vector3::zeros();
        self.total_torque = Vector3::zeros();
    }

    /// Position half of the Euler step: move by the (updated) velocities,
    /// update the orientation by the quaternion derivative, and refresh the
    /// world-frame center of mass and inverse inertia tensor.
    pub fn integrate_state(&mut self, dt: Fx)
        ensures
            final(self).transform.translation@ == vadd_s(
                old(self).transform.translation@,
                vscale_s(old(self).linear_velocity@, dt@),
            ),
            final(self).transform.rotation@ == qto_mat3_s(
                qrenorm_s(
                    qderivative_s(
                        from_mat3_s(old(self).transform.rotation@),
                        qscale_s(qfrom_vec_s(old(self).angular_velocity@), dt@),
                    ),
                ),
            ),
            final(self).center_of_mass@ == vadd_s(
                old(self).local_center_of_mass@,
                final(self).transform.translation@,
            ),
            final(self).inv_inertia_tensor@ == mat_mul_s(
                final(self).transform.rotation@,
                mat_mul_s(
                    old(self).inv_inertia_matrix@,
                    rinv_def_s(final(self).transform.rotation@),
                ),
            ),
            *final(self) == (RigidBody {
                transform: final(self).transform,
                center_of_mass: final(self).center_of_mass,
                inv_inertia_tensor: final(self).inv_inertia_tensor,
                ..*old(self)
            }),
    {
        let lv = self.linear_velocity;
        self.apply_displacement(lv.scale(dt));
        let qv = Quaternion::from_vec(&self.angular_velocity).qscale(dt);
        self.apply_rotation_vector(qv);

        // Update the world-frame center of mass.
        self.center_of_mass = self.local_center_of_mass.vadd(&self.transform.translation);

        // Update the world-frame inverse inertia tensor.
        let det = self.transform.rotation.determinant();
        let rinv = if det.0 != 0 {
            self.transform.rotation.inverse()
        } else {
            self.transform.rotation.transposed()
        };
        self.inv_inertia_tensor = self.transform.rotation.mul_mat(
            &self.inv_inertia_matrix.mul_mat(&rinv),
        );
    }

    /// Accumulate a force through the center of mass, masked by the
    /// translation axes.
    pub fn apply_central_force(&mut self, force: Vector3)
        ensures
            final(self).total_force@ == vadd_s(
                old(self).total_force@,
                vmulv_s(force@, old(self).translation_moving_axis@),
            ),
            *final(self) == (RigidBody { total_force: final(self).total_force, ..*old(self) }),
    {
        self.total_force = self.total_force.vadd(&force.mulv(&self.translation_moving_axis));
    }

    /// Accumulate a torque, masked by the rotation axes.
    pub fn apply_torque(&mut self, torque: Vector3)
        ensures
            final(self).total_torque@ == vadd_s(
                old(self).total_torque@,
                vmulv_s(torque@, old(self).rotation_moving_axis@),
            ),
            *final(self) == (RigidBody { total_torque: final(self).total_torque, ..*old(self) }),
    {
        self.total_torque = self.total_torque.vadd(&torque.mulv(&self.rotation_moving_axis));
    }

    /// Accumulate a force applied at a world point: its central part plus
    /// the torque of its lever arm about the center of mass.
    pub fn apply_force(&mut self, force: Vector3, point: Vector3)
        ensures
            final(self).total_force@ == vadd_s(
                old(self).total_force@,
                vmulv_s(force@, old(self).translation_moving_axis@),
            ),
            final(self).total_torque@ == vadd_s(
                old(self).total_torque@,
                vmulv_s(
                    cross_s(vsub_s(point@, old(self).center_of_mass@), force@),
                    old(self).rotation_moving_axis@,
                ),
            ),
            *final(self) == (RigidBody {
                total_force: final(self).total_force,
                total_torque: final(self).total_torque,
                ..*old(self)
            }),
    {
        self.apply_central_force(force);
        let com = self.center_of_mass;
        self.apply_torque(cross(&point.vsub(&com), &force));
    }

    /// Accumulate the gravity force `m g`.
    pub fn apply_gravity(&mut self)
        ensures
            final(self).total_force@ == vadd_s(
                old(self).total_force@,
                vmulv_s(
                    vscale_s(
                        V3 { x: 0, y: -(consts::GRAVITY_ACCELERATION_RAW as int), z: 0 },
                        old(self).mass@,
                    ),
                    old(self).translation_moving_axis@,
                ),
            ),
            *final(self) == (RigidBody { total_force: final(self).total_force, ..*old(self) }),
    {
        let g = consts::gravity_vector();
        let m = self.mass;
        self.apply_central_force(g.scale(m));
    }

    /// Change the linear velocity by an impulse, masked by the translation
    /// axes.
    pub fn apply_linear_impulse(&mut self, impulse: Vector3)
        ensures
            final(self).linear_velocity@ == vadd_s(
                old(self).linear_velocity@,
                vmulv_s(
                    vscale_s(impulse@, old(self).inv_mass@),
                    old(self).translation_moving_axis@,
                ),
            ),
            *final(self) == (RigidBody {
                linear_velocity: final(self).linear_velocity,
                ..*old(self)
            }),
    {
        self.linear_velocity = self.linear_velocity.vadd(
            &impulse.scale(self.inv_mass).mulv(&self.translation_moving_axis),
        );
    }

    /// Change the angular velocity by an impulse through the inverse
    /// inertia tensor, masked by the rotation axes.
    pub fn apply_angular_impulse(&mut self, impulse: Vector3)
        ensures
            final(self).angular_velocity@ == vadd_s(
                old(self).angular_velocity@,
                vmulv_s(
                    mat_vec_s(old(self).inv_inertia_tensor@, impulse@),
                    old(self).rotation_moving_axis@,
                ),
            ),
            *final(self) == (RigidBody {
                angular_velocity: final(self).angular_velocity,
                ..*old(self)
            }),
    {
        self.angular_velocity = self.angular_velocity.vadd(
            &self.inv_inertia_tensor.mul_vec(&impulse).mulv(&self.rotation_moving_axis),
        );
    }

    /// Translate the body (used by the positional penetration resolution).
    pub fn apply_displacement(&mut self, translation: Vector3)
        ensures
            final(self).transform.translation@ == vadd_s(
                old(self).transform.translation@,
                translation@,
            ),
            final(self).transform.rotation == old(self).transform.rotation,
            *final(self) == (RigidBody { transform: final(self).transform, ..*old(self) }),
    {
        self.transform.translation = self.transform.translation.vadd(&translation);
    }

    /// Turn the orientation by a rotation vector packed in a quaternion:
    /// one quaternion-derivative step followed by renormalization.  The
    /// quaternion that produced the new matrix has its squared norm within
    /// `EPS_UNIT` of 1.
    pub fn apply_rotation_vector(&mut self, quat_from_vec: Quaternion)
        ensures
            final(self).transform.rotation@ == rb_rotation_after_s(
                old(self).transform.rotation@,
                quat_from_vec,
            ),
            q_unit_defect_s(
                qrenorm_s(
                    qderivative_s(
                        from_mat3_s(old(self).transform.rotation@),
                        quat_from_vec@,
                    ),
                ),
            ) <= EPS_UNIT as int,
            final(self).transform.translation == old(self).transform.translation,
            *final(self) == (RigidBody { transform: final(self).transform, ..*old(self) }),
    {
        let q = Quaternion::from_mat3(&self.transform.rotation);
        let q2 = q.quaternion_derivative(quat_from_vec).renormalized();
        self.transform.rotation = q2.to_mat3();
    }
}

} // verus!
