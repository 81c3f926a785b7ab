//! End-to-end tests of the collision world and the simulation step.

use angine::engine::collision::collision_object::CollisionObject;
use angine::engine::collision::CollisionWorld;
use angine::engine::shapes::{Plane, Shape, ShapeType, Sphere, OBB};
use angine::engine::simulation::{RigidBody, SimulationWorld};
use angine::fixed::Fx;
use angine::math::quaternion::Quaternion;
use angine::math::transform::Transform;
use angine::math::vector::{dot, magnitude, normalized, Directions, Vector3};

fn fx(x: f64) -> Fx {
    Fx((x * 1e9).round() as i64)
}

fn to_f(v: Fx) -> f64 {
    v.0 as f64 / 1e9
}

fn v3(x: f64, y: f64, z: f64) -> Vector3 {
    Vector3::new(fx(x), fx(y), fx(z))
}

#[test]
fn init() {
    // Simulation related
    let mut simulation_world = SimulationWorld::new(None);
    // add a cube
    let half_length = v3(1.0, 1.0, 1.0);
    let obb_co = CollisionObject::new(Shape::OBB(OBB::new(half_length)));
    let obb_rb = RigidBody::new(Transform::identity(), fx(1.0), false);
    let obb_id = simulation_world.add_rigidbody(obb_rb, obb_co);

    let obb_rb = simulation_world.rigidbody_ref(obb_id);
    assert_eq!(obb_rb.id, 0);
    assert_eq!(obb_rb.collision_object_id(), 0);
    assert_eq!(obb_rb.mass(), fx(1.0));
    let r = simulation_world
        .collision_world
        .collision_object_ref(obb_rb.collision_object_id());
    assert!(r.is_ok());
    assert_eq!(obb_rb.center_of_mass(), obb_rb.transform.position());
    let obb_co = r.unwrap();
    assert_eq!(obb_co.id, 0);
    assert_eq!(obb_co.rigidbody_id, Some(0));
    assert_eq!(obb_co.enabled, true);
    assert_eq!(obb_co.is_static, false);
    assert_eq!(obb_co.shape.shape_type(), ShapeType::OBB);
    let obb_rb = simulation_world.rigidbody_ref(obb_id);
    let t = simulation_world
        .collision_world
        .collision_object_ref(0)
        .unwrap()
        .shape
        .get_transform();
    assert_eq!(obb_rb.transform.translation, t.translation);
    assert_eq!(obb_rb.transform.rotation, t.rotation);

    // add a plane
    let plane_co = CollisionObject::new(Shape::Plane(Plane::new(Directions::up())));
    let plane_rb = RigidBody::new(
        Transform::translation(v3(0.0, -10.0, 0.0)),
        fx(1.0),
        true,
    );
    let plane_id = simulation_world.add_rigidbody(plane_rb, plane_co);

    let plane_rb = simulation_world.rigidbody_ref(plane_id);
    assert_eq!(plane_rb.id, 1);
    assert_eq!(plane_rb.collision_object_id(), 1);
    let r = simulation_world
        .collision_world
        .collision_object_ref(plane_rb.collision_object_id());
    assert!(r.is_ok());
    let plane_co = r.unwrap();
    assert_eq!(plane_co.id, 1);
    assert_eq!(plane_co.rigidbody_id, Some(1));
    assert_eq!(plane_co.enabled, true);
    assert_eq!(plane_co.is_static, true);
    assert_eq!(plane_co.shape.shape_type(), ShapeType::Plane);
    let plane_rb = simulation_world.rigidbody_ref(plane_id);
    let t = simulation_world
        .collision_world
        .collision_object_ref(1)
        .unwrap()
        .shape
        .get_transform();
    assert_eq!(plane_rb.transform.translation, t.translation);
    assert_eq!(plane_rb.transform.rotation, t.rotation);

    // an unknown id is reported as an error
    assert!(simulation_world.collision_world.collision_object_ref(17).is_err());
}

#[test]
fn collision_occur() {
    // Simulation related
    let mut simulation_world = SimulationWorld::new(None);
    let t = Transform::translation(v3(0.0, -10.0, 0.0));
    // add a cube
    let half_length = v3(1.0, 1.0, 1.0);
    let obb_co = CollisionObject::new(Shape::OBB(OBB::new(half_length)));
    let obb_rb = RigidBody::new(t, fx(1.0), false);
    let _obb_id = simulation_world.add_rigidbody(obb_rb, obb_co);

    // add a plane
    let plane_co = CollisionObject::new(Shape::Plane(Plane::new(Directions::up())));
    let plane_rb = RigidBody::new(t, fx(1.0), true);
    let _plane_id = simulation_world.add_rigidbody(plane_rb, plane_co);

    simulation_world.collision_world.step();
    assert_eq!(simulation_world.collision_world.contact_manifolds.len(), 1);
}

#[test]
fn changes_in_sim() {
    // Simulation related
    let mut simulation_world = SimulationWorld::new(None);
    // add a cube
    let half_length = v3(1.0, 1.0, 1.0);
    let obb_co = CollisionObject::new(Shape::OBB(OBB::new(half_length)));
    let obb_rb = RigidBody::new(Transform::identity(), fx(1.0), false);
    let obb_id = simulation_world.add_rigidbody(obb_rb, obb_co);

    simulation_world.discrete_step();
    simulation_world.discrete_step();
    simulation_world.discrete_step();

    let obb_rb = simulation_world.rigidbody_ref(obb_id);

    assert_eq!(obb_rb.center_of_mass(), obb_rb.transform.translation);
}

#[test]
fn not_spining_without_collision() {
    // Simulation related
    let mut simulation_world = SimulationWorld::new(None);
    // add a cube
    let half_length = v3(1.0, 1.0, 1.0);
    let obb_co = CollisionObject::new(Shape::OBB(OBB::new(half_length)));
    let obb_rb = RigidBody::new(Transform::identity(), fx(1.0), false);
    let obb_id = simulation_world.add_rigidbody(obb_rb, obb_co);

    let obb_rb = simulation_world.rigidbody_ref(obb_id);
    let position_t = obb_rb.transform.translation;
    let orientation_t = obb_rb.transform.rotation;

    simulation_world.discrete_step();
    simulation_world.discrete_step();
    simulation_world.discrete_step();

    let obb_rb = simulation_world.rigidbody_ref(obb_id);

    assert_ne!(position_t, obb_rb.transform.translation);
    assert_eq!(orientation_t, obb_rb.transform.rotation);
    // the fall is along -Y
    assert!(to_f(obb_rb.transform.translation.y()) < 0.0);
    assert_eq!(obb_rb.transform.translation.x(), fx(0.0));
    assert_eq!(obb_rb.transform.translation.z(), fx(0.0));
}

#[test]
fn collision_object_mut_gives_write_access() {
    let mut collision_world = CollisionWorld::new();
    let id = collision_world
        .add_collision_object(CollisionObject::new(Shape::Sphere(Sphere::new(fx(1.0)))));
    {
        let o = collision_world.collision_object_mut(id);
        assert!(o.enabled);
        o.enabled = false;
    }
    assert!(!collision_world.collision_object_ref(id).unwrap().enabled);
}

#[test]
fn assert_on_collision() {
    let mut collision_world = CollisionWorld::new();
    // obb
    let mut obb_co = CollisionObject::new(Shape::OBB(OBB::new(v3(1.0, 1.0, 1.0))));
    obb_co
        .shape
        .set_transform(Transform::translation(Directions::up().scale(fx(0.5))));
    let obb_id = collision_world.add_collision_object(obb_co);
    // plane
    let plane_co = CollisionObject::new(Shape::Plane(Plane::new(Directions::up())));
    let plane_id = collision_world.add_collision_object(plane_co);

    let r = collision_world.are_colliding(obb_id, plane_id);
    assert!(r.is_some());
    let cm = r.unwrap();
    let a = collision_world
        .collision_object_ref(cm.id_collision_object_a)
        .unwrap();
    let b = collision_world
        .collision_object_ref(cm.id_collision_object_b)
        .unwrap();
    let ab = b.shape.get_transform().translation.vsub(&a.shape.get_transform().translation);

    assert!(to_f(dot(&ab, &cm.contact_infos.normal_a_to_b)) > 0.0);

    let r = collision_world.are_colliding(plane_id, obb_id);
    assert!(r.is_some());

    let cm = r.unwrap();
    let a = collision_world
        .collision_object_ref(cm.id_collision_object_a)
        .unwrap();
    let b = collision_world
        .collision_object_ref(cm.id_collision_object_b)
        .unwrap();
    let ab = b.shape.get_transform().translation.vsub(&a.shape.get_transform().translation);

    assert!(to_f(dot(&ab, &cm.contact_infos.normal_a_to_b)) > 0.0);
}

#[test]
fn falling_box_over_static_plane() {
    // an OBB body above a static plane: after one step the box has fallen,
    // the plane is unchanged, and no manifold is retained
    let mut simulation_world = SimulationWorld::new(None);

    let obb_co = CollisionObject::new(Shape::OBB(OBB::new(v3(1.0, 1.0, 1.0))));
    let obb_rb = RigidBody::new(Transform::identity(), fx(1.0), false);
    let obb_id = simulation_world.add_rigidbody(obb_rb, obb_co);

    let plane_co = CollisionObject::new(Shape::Plane(Plane::new(Directions::up())));
    let plane_rb = RigidBody::new(
        Transform::translation(v3(0.0, -10.0, 0.0)),
        fx(1.0),
        true,
    );
    let plane_id = simulation_world.add_rigidbody(plane_rb, plane_co);

    let plane_before = simulation_world.rigidbody_ref(plane_id).transform;

    simulation_world.discrete_step();

    let obb_rb = simulation_world.rigidbody_ref(obb_id);
    assert!(to_f(obb_rb.transform.translation.y()) < 0.0);

    let plane_after = simulation_world.rigidbody_ref(plane_id).transform;
    assert_eq!(plane_before, plane_after);

    assert_eq!(simulation_world.collision_world.contact_manifolds.len(), 0);

    // dynamic accumulators are empty after the step
    let obb_rb = simulation_world.rigidbody_ref(obb_id);
    assert_eq!(obb_rb.total_force, Vector3::origin());
    assert_eq!(obb_rb.total_torque, Vector3::origin());
}

#[test]
fn quaternion_stays_unit_through_integration() {
    // a spinning body: after several steps the quaternion that carries the
    // orientation keeps a norm within 1e-4 of 1
    let mut simulation_world = SimulationWorld::new(None);
    let obb_co = CollisionObject::new(Shape::OBB(OBB::new(v3(1.0, 1.0, 1.0))));
    let obb_rb = RigidBody::new(Transform::identity(), fx(1.0), false);
    let obb_id = simulation_world.add_rigidbody(obb_rb, obb_co);

    simulation_world.rigidbody_mut(obb_id).angular_velocity = v3(2.5, -1.0, 0.75);

    for _ in 0..10 {
        simulation_world.discrete_step();
    }

    let rb = simulation_world.rigidbody_ref(obb_id);
    let q = Quaternion::from_mat3(&rb.transform.rotation);
    let norm = to_f(q.magnitude());
    assert!((norm - 1.0).abs() < 1.0e-4, "norm {}", norm);
}

#[test]
fn resting_contact_convergence() {
    // an OBB body just above a static plane: resolving and stepping until
    // no contact remains moves the box away from the plane, monotone along
    // the original plane-to-box direction
    let mut simulation_world = SimulationWorld::new(None);

    let obb_co = CollisionObject::new(Shape::OBB(OBB::new(v3(1.0, 1.0, 1.0))));
    let obb_rb = RigidBody::new(
        Transform::translation(v3(0.0, -9.049723, 0.0)),
        fx(1.0),
        false,
    );
    let obb_id = simulation_world.add_rigidbody(obb_rb, obb_co);

    let plane_co = CollisionObject::new(Shape::Plane(Plane::new(Directions::up())));
    let plane_rb = RigidBody::new(
        Transform::translation(v3(0.0, -10.0, 0.0)),
        fx(1.0),
        true,
    );
    let plane_id = simulation_world.add_rigidbody(plane_rb, plane_co);

    let r = simulation_world
        .collision_world
        .are_colliding(obb_id, plane_id);
    assert!(r.is_some());

    let obb_pos_t = simulation_world.rigidbody_ref(obb_id).transform.translation;
    let plane2obb_tone = obb_pos_t.vsub(
        &simulation_world.rigidbody_ref(plane_id).transform.translation,
    );

    // advance manually (detect, resolve, step) until no contact remains
    let mut rounds = 0;
    loop {
        if let Some(cm) = simulation_world
            .collision_world
            .are_colliding(obb_id, plane_id)
        {
            simulation_world.collision_world.contact_manifolds.push(cm);
            simulation_world.solve_contact_manifolds();
            simulation_world.collision_world.clear_manifold();

            simulation_world.step_rigidbody(obb_id);
            simulation_world.step_rigidbody(plane_id);
        } else {
            break;
        }
        rounds += 1;
        assert!(rounds < 10000, "the resting contact never separated");
    }

    let plane2obb_ttwo = simulation_world
        .rigidbody_ref(obb_id)
        .transform
        .translation
        .vsub(&simulation_world.rigidbody_ref(plane_id).transform.translation);

    assert!(to_f(magnitude(&plane2obb_ttwo)) > to_f(magnitude(&plane2obb_tone)));
    assert!(to_f(dot(&normalized(&plane2obb_ttwo), &plane2obb_tone)) > 0.0);
}

#[test]
fn sphere_resting_on_plane_stays_above() {
    // a sphere dropped on a plane: after many steps it still sits near the
    // plane and has not tunneled far through it
    let mut simulation_world = SimulationWorld::new(None);

    let sphere_co = CollisionObject::new(Shape::Sphere(Sphere::new(fx(1.0))));
    let sphere_rb = RigidBody::new(Transform::translation(v3(0.0, 1.2, 0.0)), fx(1.0), false);
    let sphere_id = simulation_world.add_rigidbody(sphere_rb, sphere_co);

    let plane_co = CollisionObject::new(Shape::Plane(Plane::new(Directions::up())));
    let plane_rb = RigidBody::new(Transform::translation(v3(0.0, -1.0, 0.0)), fx(1.0), true);
    let _plane_id = simulation_world.add_rigidbody(plane_rb, plane_co);

    for _ in 0..120 {
        simulation_world.discrete_step();
    }

    let y = to_f(simulation_world.rigidbody_ref(sphere_id).transform.translation.y());
    assert!(y > -1.5, "the sphere fell through the plane: y = {}", y);
}
