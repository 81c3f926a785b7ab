//! Contact resolution: velocity resolution by an impulse along the normal,
//! and positional (Baumgarte-style) penetration resolution split between a
//! linear and a bounded angular displacement.

use super::consts;
use super::RigidBody;
use crate::engine::contact_algorithms::ContactInformations;
use crate::fixed::{
    fabs, fadd, fdiv, fmul, fneg, fsub, mag_s, sabs, sadd, sdiv, smul, sneg, ssub, Fx, SCALE,
};
use crate::math::matrix::{m3_of, mat_vec_s};
use crate::math::transform::Transform;
use crate::math::vector::{
    cross, cross_s, dot, dot_s, magnitude, v3_of, vadd_s, vdivs_s, vmag_s, vmulv_s, vneg_s,
    vscale_s, vsub_s, Vector3, V3,
};
use vstd::prelude::*;

verus! {

/// The three vectors of the angular response to a unit impulse at `point`
/// along `normal`: the torque, the rotation it induces through the inverse
/// inertia tensor, and the velocity that rotation gives the point.
pub open spec fn rotation_per_unit_impulse_s(rb: &RigidBody, point: V3, normal: V3) -> (
    V3,
    V3,
    V3,
) {
    let torque = cross_s(point, normal);
    let rotation = mat_vec_s(rb.inv_inertia_tensor@, torque);
    let velocity = cross_s(rotation, point);
    (torque, rotation, velocity)
}

/// Torque, induced rotation and induced point velocity of a unit impulse.
pub fn rotation_per_unit_impulse(rigidbody: &RigidBody, point: &Vector3, normal: &Vector3) -> (r:
    (Vector3, Vector3, Vector3))
    ensures
        (r.0@, r.1@, r.2@) == rotation_per_unit_impulse_s(rigidbody, point@, normal@),
{
    let torque_per_unit_impulse = cross(point, normal);
    let rotation_per_unit_impulse_v = rigidbody.inv_inertia_tensor().mul_vec(
        &torque_per_unit_impulse,
    );
    let angular_velocity_per_unit_impulse = cross(&rotation_per_unit_impulse_v, point);
    (torque_per_unit_impulse, rotation_per_unit_impulse_v, angular_velocity_per_unit_impulse)
}

/// Velocity of a material point at offset `relative_contact_point` from the
/// center of mass.
pub open spec fn velocity_at_point_s(rb: &RigidBody, rel: V3) -> V3 {
    vadd_s(rb.linear_velocity@, cross_s(rb.angular_velocity@, rel))
}

/// The velocity of the body's material point at the given offset from its
/// center of mass.
pub fn velocity_at_point(rigidbody: &RigidBody, relative_contact_point: &Vector3) -> (r: Vector3)
    ensures
        r@ == velocity_at_point_s(rigidbody, relative_contact_point@),
{
    rigidbody.linear_velocity.vadd(
        &cross(&rigidbody.angular_velocity, relative_contact_point),
    )
}

/// Linear and angular share of a penetration displacement, with the
/// angular share bounded by 0.2 times the lever arm (the excess moves back
/// into the linear share).
pub open spec fn limit_angular_displacement_s(
    linear_move: int,
    angular_move: int,
    relative_contact: V3,
) -> (int, int) {
    let limit = smul(
        consts::ANGULAR_PENETRATION_DISPLACEMENT_FACTOR_RAW as int,
        vmag_s(relative_contact),
    );
    if sabs(angular_move) > limit {
        let total_move = sadd(linear_move, angular_move);
        let bounded = if angular_move >= 0 {
            limit
        } else {
            sneg(limit)
        };
        (ssub(total_move, bounded), bounded)
    } else {
        (linear_move, angular_move)
    }
}

/// Bound the angular share of a displacement by 0.2 times the lever arm.
pub fn limit_angular_displacement(
    linear_move: Fx,
    angular_move: Fx,
    relative_contact: &Vector3,
) -> (r: (Fx, Fx))
    ensures
        (r.0@, r.1@) == limit_angular_displacement_s(
            linear_move@,
            angular_move@,
            relative_contact@,
        ),
{
    let limit = fmul(
        Fx(consts::ANGULAR_PENETRATION_DISPLACEMENT_FACTOR_RAW),
        magnitude(relative_contact),
    );
    if fabs(angular_move).0 > limit.0 {
        let total_move = fadd(linear_move, angular_move);
        let bounded = if angular_move.0 >= 0 {
            limit
        } else {
            fneg(limit)
        };
        (fsub(total_move, bounded), bounded)
    } else {
        (linear_move, angular_move)
    }
}

/// A body after a linear impulse (mirror of `apply_linear_impulse`).
pub open spec fn rb_lin_impulse_s(b: RigidBody, imp: V3) -> RigidBody {
    RigidBody {
        linear_velocity: v3_of(
            vadd_s(
                b.linear_velocity@,
                vmulv_s(vscale_s(imp, b.inv_mass@), b.translation_moving_axis@),
            ),
        ),
        ..b
    }
}

/// A body after an angular impulse (mirror of `apply_angular_impulse`).
pub open spec fn rb_ang_impulse_s(b: RigidBody, imp: V3) -> RigidBody {
    RigidBody {
        angular_velocity: v3_of(
            vadd_s(
                b.angular_velocity@,
                vmulv_s(mat_vec_s(b.inv_inertia_tensor@, imp), b.rotation_moving_axis@),
            ),
        ),
        ..b
    }
}

/// A body after a translation (mirror of `apply_displacement`).
pub open spec fn rb_displacement_s(b: RigidBody, t: V3) -> RigidBody {
    RigidBody {
        transform: Transform {
            rotation: b.transform.rotation,
            translation: v3_of(vadd_s(b.transform.translation@, t)),
        },
        ..b
    }
}

/// A body after a rotation-vector turn (mirror of `apply_rotation_vector`).
pub open spec fn rb_rotation_vec_s(b: RigidBody, rotv: V3) -> RigidBody {
    RigidBody {
        transform: Transform {
            rotation: m3_of(rb_rot_after_pen_s(&b, rotv)),
            translation: b.transform.translation,
        },
        ..b
    }
}

/// Everything of the two-body velocity resolution that the postcondition
/// needs: whether the pair separates (no impulse), and the two impulse
/// vectors otherwise.
pub open spec fn vel_res_two_sep_s(b1: &RigidBody, b2: &RigidBody, p: V3, normal: V3) -> bool {
    let r1 = vsub_s(p, b1.center_of_mass@);
    let r2 = vsub_s(p, b2.center_of_mass@);
    let v1 = velocity_at_point_s(b1, r1);
    let v2 = velocity_at_point_s(b2, r2);
    dot_s(vsub_s(v2, v1), normal) >= 0
}

/// Impulse vectors applied to the two bodies when they do not separate.
pub open spec fn vel_res_two_impulses_s(b1: &RigidBody, b2: &RigidBody, p: V3, normal: V3) -> (
    V3,
    V3,
) {
    let r1 = vsub_s(p, b1.center_of_mass@);
    let r2 = vsub_s(p, b2.center_of_mass@);
    let v1 = velocity_at_point_s(b1, r1);
    let v2 = velocity_at_point_s(b2, r2);
    let rel_velocity_normal = dot_s(vsub_s(v2, v1), normal);
    let rot1 = rotation_per_unit_impulse_s(b1, r1, normal).2;
    let rot2 = rotation_per_unit_impulse_s(b2, r2, normal).2;
    let div = sadd(sadd(b1.inv_mass@, b2.inv_mass@), dot_s(vadd_s(rot1, rot2), normal));
    let t = sdiv(rel_velocity_normal, div);
    let imp_a = smul(sneg(sadd(SCALE as int, b1.restitution_coef@)), t);
    let imp_b = smul(sneg(sadd(SCALE as int, b2.restitution_coef@)), t);
    (vscale_s(vneg_s(normal), imp_a), vscale_s(normal, imp_b))
}

/// The whole body sequence after the two-body velocity resolution of one
/// contact point.
#[verifier::opaque]
pub open spec fn vel_res_two_s(bodies: Seq<RigidBody>, rb1: int, rb2: int, p: V3, n: V3) -> Seq<
    RigidBody,
> {
    let b1 = bodies[rb1];
    let b2 = bodies[rb2];
    if vel_res_two_sep_s(&b1, &b2, p, n) {
        bodies
    } else {
        let imps = vel_res_two_impulses_s(&b1, &b2, p, n);
        let r1 = vsub_s(p, b1.center_of_mass@);
        let r2 = vsub_s(p, b2.center_of_mass@);
        let a1 = rb_ang_impulse_s(
            rb_lin_impulse_s(b1, imps.0),
            cross_s(r1, vscale_s(imps.0, consts::ANGULAR_DAMPING_RAW as int)),
        );
        let a2 = rb_ang_impulse_s(
            rb_lin_impulse_s(b2, imps.1),
            cross_s(r2, vscale_s(imps.1, consts::ANGULAR_DAMPING_RAW as int)),
        );
        bodies.update(rb1, a1).update(rb2, a2)
    }
}

/// Velocity resolution of one contact point between two dynamic bodies:
/// when the relative normal velocity still approaches, an impulse of
/// magnitude `(v_rel . n) / K` scaled by each side's restitution is
/// applied in opposite directions, linearly and (damped) angularly; a
/// separating pair is left unchanged.
pub fn velocity_resolution_two_moving(
    bodies: &mut Vec<RigidBody>,
    rb1_id: usize,
    rb2_id: usize,
    p: &Vector3,
    contact_infos: &ContactInformations,
)
    requires
        rb1_id < old(bodies)@.len(),
        rb2_id < old(bodies)@.len(),
        rb1_id != rb2_id,
    ensures
        final(bodies)@ == vel_res_two_s(
            old(bodies)@,
            rb1_id as int,
            rb2_id as int,
            p@,
            contact_infos.normal_a_to_b@,
        ),
        final(bodies)@.len() == old(bodies)@.len(),
        forall|k: int|
            0 <= k < old(bodies)@.len() && k != rb1_id as int && k != rb2_id as int ==> final(bodies)@[k] == old(bodies)@[k],
        forall|k: int|
            0 <= k < old(bodies)@.len() ==> (#[trigger] final(bodies)@[k]).is_static == old(bodies)@[k].is_static && final(bodies)@[k].id == old(bodies)@[k].id && final(bodies)@[k].collision_object_id == old(bodies)@[k].collision_object_id && final(bodies)@[k].transform == old(bodies)@[k].transform,
{
    proof {
        reveal(vel_res_two_s);
    }
    let rb1 = &bodies[rb1_id];
    let rb2 = &bodies[rb2_id];
    let rb1_2_point = p.vsub(&rb1.center_of_mass());
    let rb2_2_point = p.vsub(&rb2.center_of_mass());
    let normal = contact_infos.normal_a_to_b;
    let v1 = velocity_at_point(rb1, &rb1_2_point);
    let v2 = velocity_at_point(rb2, &rb2_2_point);
    let rel_velocity = v2.vsub(&v1);
    let rel_velocity_normal = dot(&rel_velocity, &normal);

    // A pair already separating gets no impulse.
    if rel_velocity_normal.0 >= 0 {
        return;
    }

    let (_t1, _r1, rot_per_impulse_1) = rotation_per_unit_impulse(rb1, &rb1_2_point, &normal);
    let (_t2, _r2, rot_per_impulse_2) = rotation_per_unit_impulse(rb2, &rb2_2_point, &normal);

    let div = fadd(
        fadd(rb1.inv_mass(), rb2.inv_mass()),
        dot(&rot_per_impulse_1.vadd(&rot_per_impulse_2), &normal),
    );

    let t = fdiv(rel_velocity_normal, div);

    let one = Fx(SCALE);
    let imp_a = fmul(fneg(fadd(one, rb1.restitution_coef)), t);
    let imp_b = fmul(fneg(fadd(one, rb2.restitution_coef)), t);
    let impulsion_vector_a = normal.vneg().scale(imp_a);
    let impulsion_vector_b = normal.scale(imp_b);

    let damping = Fx(consts::ANGULAR_DAMPING_RAW);
    let b1 = &mut bodies[rb1_id];
    b1.apply_linear_impulse(impulsion_vector_a);
    b1.apply_angular_impulse(cross(&rb1_2_point, &impulsion_vector_a.scale(damping)));

    let b2 = &mut bodies[rb2_id];
    b2.apply_linear_impulse(impulsion_vector_b);
    b2.apply_angular_impulse(cross(&rb2_2_point, &impulsion_vector_b.scale(damping)));

    proof {
        let nrm = contact_infos.normal_a_to_b@;
        let b1o = old(bodies)@[rb1_id as int];
        let b2o = old(bodies)@[rb2_id as int];
        let imps = vel_res_two_impulses_s(&b1o, &b2o, p@, nrm);
        let r1 = vsub_s(p@, b1o.center_of_mass@);
        let r2 = vsub_s(p@, b2o.center_of_mass@);
        let a1 = rb_ang_impulse_s(
            rb_lin_impulse_s(b1o, imps.0),
            cross_s(r1, vscale_s(imps.0, consts::ANGULAR_DAMPING_RAW as int)),
        );
        let a2 = rb_ang_impulse_s(
            rb_lin_impulse_s(b2o, imps.1),
            cross_s(r2, vscale_s(imps.1, consts::ANGULAR_DAMPING_RAW as int)),
        );
        crate::math::vector::lemma_v3_of(
            bodies@[rb1_id as int].linear_velocity,
            a1.linear_velocity@,
        );
        crate::math::vector::lemma_v3_of(
            bodies@[rb1_id as int].angular_velocity,
            a1.angular_velocity@,
        );
        crate::math::vector::lemma_v3_of(
            bodies@[rb2_id as int].linear_velocity,
            a2.linear_velocity@,
        );
        crate::math::vector::lemma_v3_of(
            bodies@[rb2_id as int].angular_velocity,
            a2.angular_velocity@,
        );
        assert(bodies@[rb1_id as int] == a1);
        assert(bodies@[rb2_id as int] == a2);
        assert(bodies@ =~= old(bodies)@.update(rb1_id as int, a1).update(rb2_id as int, a2));
    }
}

/// Whether the single moving body already separates from the wall.
pub open spec fn vel_res_one_sep_s(rb: &RigidBody, p: V3, normal: V3) -> bool {
    let rel = vsub_s(p, rb.center_of_mass@);
    dot_s(velocity_at_point_s(rb, rel), normal) < 0
}

/// The impulse vector of the one-body velocity resolution.
pub open spec fn vel_res_one_impulse_s(rb: &RigidBody, p: V3, normal: V3) -> V3 {
    let rel = vsub_s(p, rb.center_of_mass@);
    let rel_velocity_normal = dot_s(velocity_at_point_s(rb, rel), normal);
    let rot = rotation_per_unit_impulse_s(rb, rel, normal).2;
    let div = sadd(rb.inv_mass@, dot_s(rot, normal));
    let t = sdiv(rel_velocity_normal, div);
    vscale_s(normal, smul(sneg(sadd(SCALE as int, rb.restitution_coef@)), t))
}

/// The body after the one-body velocity resolution of one contact point.
#[verifier::opaque]
pub open spec fn vel_res_one_s(b: RigidBody, p: V3, n: V3) -> RigidBody {
    if vel_res_one_sep_s(&b, p, n) {
        b
    } else {
        let imp = vel_res_one_impulse_s(&b, p, n);
        let rel = vsub_s(p, b.center_of_mass@);
        rb_ang_impulse_s(
            rb_lin_impulse_s(b, imp),
            cross_s(rel, vscale_s(imp, consts::ANGULAR_DAMPING_RAW as int)),
        )
    }
}

/// Velocity resolution against a static body: the same impulse with the
/// static side's inverse mass and inertia set to zero; `normal` must point
/// from the moving body toward the static one.
pub fn velocity_resolution_one_moving(
    rb: &mut RigidBody,
    p: &Vector3,
    normal: Vector3,
    penetration_distance: Fx,
)
    ensures
        *final(rb) == vel_res_one_s(*old(rb), p@, normal@),
        final(rb).is_static == old(rb).is_static,
        final(rb).id == old(rb).id,
        final(rb).collision_object_id == old(rb).collision_object_id,
        final(rb).transform == old(rb).transform,
{
    proof {
        reveal(vel_res_one_s);
    }
    let center2point = p.vsub(&rb.center_of_mass());
    let rel_velocity = velocity_at_point(rb, &center2point);
    let rel_velocity_normal = dot(&rel_velocity, &normal);
    if rel_velocity_normal.0 < 0 {
        return;
    }

    let (_t, _r, rot_per_impulse) = rotation_per_unit_impulse(rb, &center2point, &normal);
    let div = fadd(rb.inv_mass(), dot(&rot_per_impulse, &normal));
    let t = fdiv(rel_velocity_normal, div);
    let impulsion = fmul(fneg(fadd(Fx(SCALE), rb.restitution_coef)), t);
    let impulsion_vector = normal.scale(impulsion);

    rb.apply_linear_impulse(impulsion_vector);
    rb.apply_angular_impulse(
        cross(&center2point, &impulsion_vector.scale(Fx(consts::ANGULAR_DAMPING_RAW))),
    );
    proof {
        let b = *old(rb);
        let imp = vel_res_one_impulse_s(&b, p@, normal@);
        let rel = vsub_s(p@, b.center_of_mass@);
        let a = rb_ang_impulse_s(
            rb_lin_impulse_s(b, imp),
            cross_s(rel, vscale_s(imp, consts::ANGULAR_DAMPING_RAW as int)),
        );
        crate::math::vector::lemma_v3_of(rb.linear_velocity, a.linear_velocity@);
        crate::math::vector::lemma_v3_of(rb.angular_velocity, a.angular_velocity@);
        assert(*rb == a);
    }
}

/// The linear and angular move (after bounding) and the rotation vector
/// one body receives in a positional split; `sign` is +1 for the second
/// body of a pair and -1 for the first.
pub open spec fn pen_res_moves_s(rb: &RigidBody, p: V3, normal: V3, penetration: int, inv_total:
    int, sign: int) -> (int, int, V3) {
    let rel = vsub_s(p, rb.center_of_mass@);
    let rpui = rotation_per_unit_impulse_s(rb, rel, normal);
    let angular_inertia = dot_s(rpui.2, normal);
    let linear_inertia = rb.inv_mass@;
    let linear_move = smul(smul(smul(sign, penetration), linear_inertia), inv_total);
    let angular_move = smul(smul(smul(sign, penetration), angular_inertia), inv_total);
    let bounded = limit_angular_displacement_s(linear_move, angular_move, rel);
    let rotation = vdivs_s(vscale_s(rpui.1, bounded.1), angular_inertia);
    (bounded.0, bounded.1, rotation)
}

/// The angular inertia `((I^-1 (r x n)) x r) . n` of a body at a contact.
pub open spec fn angular_inertia_s(rb: &RigidBody, p: V3, normal: V3) -> int {
    let rel = vsub_s(p, rb.center_of_mass@);
    dot_s(rotation_per_unit_impulse_s(rb, rel, normal).2, normal)
}

/// The whole body sequence after the two-body penetration resolution of
/// one contact point.
#[verifier::opaque]
pub open spec fn pen_res_two_s(
    bodies: Seq<RigidBody>,
    rb1: int,
    rb2: int,
    p: V3,
    n: V3,
    pen: int,
) -> Seq<RigidBody> {
    let b1 = bodies[rb1];
    let b2 = bodies[rb2];
    let inv_total = sdiv(
        SCALE as int,
        sadd(
            sadd(sadd(angular_inertia_s(&b1, p, n), b1.inv_mass@), angular_inertia_s(&b2, p, n)),
            b2.inv_mass@,
        ),
    );
    let m1 = pen_res_moves_s(&b1, p, n, pen, inv_total, -(SCALE as int));
    let m2 = pen_res_moves_s(&b2, p, n, pen, inv_total, SCALE as int);
    let a1 = rb_rotation_vec_s(rb_displacement_s(b1, vscale_s(n, m1.0)), m1.2);
    let a2 = rb_rotation_vec_s(rb_displacement_s(b2, vscale_s(n, m2.0)), m2.2);
    bodies.update(rb1, a1).update(rb2, a2)
}

/// Penetration resolution between two dynamic bodies: the penetration is
/// split in proportion to each side's linear and angular inertia, the
/// angular share is bounded, and each body is translated along the normal
/// and turned by its rotation vector.
pub fn penetration_resolution_two_moving(
    bodies: &mut Vec<RigidBody>,
    rb1_id: usize,
    rb2_id: usize,
    p: &Vector3,
    contact_infos: &ContactInformations,
)
    requires
        rb1_id < old(bodies)@.len(),
        rb2_id < old(bodies)@.len(),
        rb1_id != rb2_id,
    ensures
        final(bodies)@ == pen_res_two_s(
            old(bodies)@,
            rb1_id as int,
            rb2_id as int,
            p@,
            contact_infos.normal_a_to_b@,
            contact_infos.penetration_distance@,
        ),
        final(bodies)@.len() == old(bodies)@.len(),
        forall|k: int|
            0 <= k < old(bodies)@.len() && k != rb1_id as int && k != rb2_id as int ==> final(bodies)@[k] == old(bodies)@[k],
        forall|k: int|
            0 <= k < old(bodies)@.len() ==> (#[trigger] final(bodies)@[k]).is_static == old(bodies)@[k].is_static && final(bodies)@[k].id == old(bodies)@[k].id && final(bodies)@[k].collision_object_id == old(bodies)@[k].collision_object_id,
{
    proof {
        reveal(pen_res_two_s);
    }
    let normal = contact_infos.normal_a_to_b;

    let rel_contact_point_1 = p.vsub(&bodies[rb1_id].center_of_mass());
    let rel_contact_point_2 = p.vsub(&bodies[rb2_id].center_of_mass());

    let (_tq1, rotation_direction_1, angular_velocity_per_unit_impulse_1) =
        rotation_per_unit_impulse(&bodies[rb1_id], &rel_contact_point_1, &normal);
    let angular_inertia_1 = dot(&angular_velocity_per_unit_impulse_1, &normal);
    let linear_inertia_1 = bodies[rb1_id].inv_mass();

    let (_tq2, rotation_direction_2, angular_velocity_per_unit_impulse_2) =
        rotation_per_unit_impulse(&bodies[rb2_id], &rel_contact_point_2, &normal);
    let angular_inertia_2 = dot(&angular_velocity_per_unit_impulse_2, &normal);
    let linear_inertia_2 = bodies[rb2_id].inv_mass();

    let penetration = contact_infos.penetration_distance;
    let inv_total_inertia = fdiv(
        Fx(SCALE),
        fadd(fadd(fadd(angular_inertia_1, linear_inertia_1), angular_inertia_2), linear_inertia_2),
    );
    let neg_one = Fx(-SCALE);
    let one = Fx(SCALE);
    let linear_move_1 = fmul(fmul(fmul(neg_one, penetration), linear_inertia_1), inv_total_inertia);
    let linear_move_2 = fmul(fmul(fmul(one, penetration), linear_inertia_2), inv_total_inertia);
    let angular_move_1 = fmul(
        fmul(fmul(neg_one, penetration), angular_inertia_1),
        inv_total_inertia,
    );
    let angular_move_2 = fmul(fmul(fmul(one, penetration), angular_inertia_2), inv_total_inertia);

    let (linear_move_1, angular_move_1) = limit_angular_displacement(
        linear_move_1,
        angular_move_1,
        &rel_contact_point_1,
    );
    let (linear_move_2, angular_move_2) = limit_angular_displacement(
        linear_move_2,
        angular_move_2,
        &rel_contact_point_2,
    );

    let rotation_1 = rotation_direction_1.scale(angular_move_1).divs(angular_inertia_1);
    let rotation_2 = rotation_direction_2.scale(angular_move_2).divs(angular_inertia_2);

    let b1 = &mut bodies[rb1_id];
    b1.apply_displacement(normal.scale(linear_move_1));
    b1.apply_rotation_vector(Quaternion::from_vec(&rotation_1));
    let b2 = &mut bodies[rb2_id];
    b2.apply_displacement(normal.scale(linear_move_2));
    b2.apply_rotation_vector(Quaternion::from_vec(&rotation_2));

    proof {
        let nrm = contact_infos.normal_a_to_b@;
        let pen = contact_infos.penetration_distance@;
        let b1o = old(bodies)@[rb1_id as int];
        let b2o = old(bodies)@[rb2_id as int];
        let inv_total = sdiv(
            SCALE as int,
            sadd(
                sadd(
                    sadd(angular_inertia_s(&b1o, p@, nrm), b1o.inv_mass@),
                    angular_inertia_s(&b2o, p@, nrm),
                ),
                b2o.inv_mass@,
            ),
        );
        let m1 = pen_res_moves_s(&b1o, p@, nrm, pen, inv_total, -(SCALE as int));
        let m2 = pen_res_moves_s(&b2o, p@, nrm, pen, inv_total, SCALE as int);
        let a1 = rb_rotation_vec_s(rb_displacement_s(b1o, vscale_s(nrm, m1.0)), m1.2);
        let a2 = rb_rotation_vec_s(rb_displacement_s(b2o, vscale_s(nrm, m2.0)), m2.2);
        crate::math::vector::lemma_v3_of(
            bodies@[rb1_id as int].transform.translation,
            a1.transform.translation@,
        );
        crate::math::matrix::lemma_m3_of(
            bodies@[rb1_id as int].transform.rotation,
            rb_rot_after_pen_s(&rb_displacement_s(b1o, vscale_s(nrm, m1.0)), m1.2),
        );
        crate::math::vector::lemma_v3_of(
            bodies@[rb2_id as int].transform.translation,
            a2.transform.translation@,
        );
        crate::math::matrix::lemma_m3_of(
            bodies@[rb2_id as int].transform.rotation,
            rb_rot_after_pen_s(&rb_displacement_s(b2o, vscale_s(nrm, m2.0)), m2.2),
        );
        assert(bodies@[rb1_id as int] == a1);
        assert(bodies@[rb2_id as int] == a2);
        assert(bodies@ =~= old(bodies)@.update(rb1_id as int, a1).update(rb2_id as int, a2));
    }
}

/// The rotation matrix after applying a penetration rotation vector.
pub open spec fn rb_rot_after_pen_s(rb: &RigidBody, rotation: V3) -> crate::math::matrix::M3 {
    crate::math::quaternion::qto_mat3_s(
        crate::math::quaternion::qrenorm_s(
            crate::math::quaternion::qderivative_s(
                crate::math::quaternion::from_mat3_s(rb.transform.rotation@),
                crate::math::quaternion::qfrom_vec_s(rotation),
            ),
        ),
    )
}

/// The body after the one-body penetration resolution of one contact
/// point.
#[verifier::opaque]
pub open spec fn pen_res_one_s(b: RigidBody, p: V3, n: V3, pen: int) -> RigidBody {
    let inv_total = sdiv(SCALE as int, sadd(angular_inertia_s(&b, p, n), b.inv_mass@));
    let m = pen_res_moves_s(&b, p, n, pen, inv_total, -(SCALE as int));
    rb_rotation_vec_s(rb_displacement_s(b, vscale_s(n, m.0)), m.2)
}

/// Penetration resolution against a static wall: the moving body receives
/// the whole split.
pub fn penetration_resolution_one_moving(
    rb: &mut RigidBody,
    p: &Vector3,
    normal: Vector3,
    penetration_distance: Fx,
)
    ensures
        *final(rb) == pen_res_one_s(*old(rb), p@, normal@, penetration_distance@),
        final(rb).is_static == old(rb).is_static,
        final(rb).id == old(rb).id,
        final(rb).collision_object_id == old(rb).collision_object_id,
{
    proof {
        reveal(pen_res_one_s);
    }
    let rel_contact_point = p.vsub(&rb.center_of_mass());
    let (_tq, rotation_direction, angular_velocity_per_unit_impulse) = rotation_per_unit_impulse(
        rb,
        &rel_contact_point,
        &normal,
    );
    let angular_inertia = dot(&angular_velocity_per_unit_impulse, &normal);
    let linear_inertia = rb.inv_mass();

    let penetration = penetration_distance;
    let inv_total_inertia = fdiv(Fx(SCALE), fadd(angular_inertia, linear_inertia));
    let neg_one = Fx(-SCALE);
    let linear_move = fmul(fmul(fmul(neg_one, penetration), linear_inertia), inv_total_inertia);
    let angular_move = fmul(fmul(fmul(neg_one, penetration), angular_inertia), inv_total_inertia);

    let (linear_move, angular_move) = limit_angular_displacement(
        linear_move,
        angular_move,
        &rel_contact_point,
    );

    let rotation = rotation_direction.scale(angular_move).divs(angular_inertia);

    rb.apply_displacement(normal.scale(linear_move));
    rb.apply_rotation_vector(Quaternion::from_vec(&rotation));
    proof {
        let b = *old(rb);
        let inv_total = sdiv(
            SCALE as int,
            sadd(angular_inertia_s(&b, p@, normal@), b.inv_mass@),
        );
        let m = pen_res_moves_s(&b, p@, normal@, penetration_distance@, inv_total, -(
        SCALE as int));
        let a = rb_rotation_vec_s(rb_displacement_s(b, vscale_s(normal@, m.0)), m.2);
        crate::math::vector::lemma_v3_of(rb.transform.translation, a.transform.translation@);
        crate::math::matrix::lemma_m3_of(
            rb.transform.rotation,
            rb_rot_after_pen_s(&rb_displacement_s(b, vscale_s(normal@, m.0)), m.2),
        );
        assert(*rb == a);
    }
}

use crate::math::quaternion::Quaternion;

} // verus!
