//! The simulation world: owns the bodies and the collision world, and
//! drives the step loop of detection, resolution, integration and
//! mirroring.

pub mod collision_solver;
pub mod consts;
pub mod rigid_body;

pub use rigid_body::RigidBody;

use crate::engine::collision::{cw_wf, step_result_s, CollisionObject, CollisionWorld};
use crate::engine::contact_algorithms::ContactManifold;
use crate::engine::simulation::collision_solver::{
    pen_res_one_s, pen_res_two_s, vel_res_one_s, vel_res_two_s,
};
use crate::math::vector::{v3_of, vneg_s, Vector3, V3};
use crate::engine::intersection_algorithms::intersection_wrapper::shape_wf;
use crate::engine::shapes::shape_inertia_s;
use crate::fixed::Fx;
use crate::math::matrix::det_s;
use vstd::prelude::*;

verus! {

/// The simulation world.
pub struct SimulationWorld {
    pub bodies: Vec<RigidBody>,
    pub time_step: Fx,
    pub collision_world: CollisionWorld,
}

/// Bodies and collision objects are linked one to one by mutually inverse
/// ids, every body carries its index as id, and the collision world is
/// well formed.
pub open spec fn sw_wf(w: &SimulationWorld) -> bool {
    &&& cw_wf(&w.collision_world)
    &&& (forall|i: int|
        0 <= i < w.bodies@.len() ==> (#[trigger] w.bodies@[i]).id == i)
    &&& (forall|i: int|
        0 <= i < w.bodies@.len() ==> (#[trigger] w.bodies@[i]).collision_object_id is Some)
    &&& (forall|i: int|
        0 <= i < w.bodies@.len() ==> 0 <= (#[trigger] w.bodies@[i]).collision_object_id->Some_0
            < w.collision_world.collision_objects@.len()
            && w.collision_world.collision_objects@[w.bodies@[i].collision_object_id->Some_0 as int].rigidbody_id
            == Some(i as usize))
    &&& (forall|o: int|
        0 <= o < w.collision_world.collision_objects@.len() && (
        #[trigger] w.collision_world.collision_objects@[o]).rigidbody_id is Some ==> 0 <= (
        w.collision_world.collision_objects@[o]).rigidbody_id->Some_0 < w.bodies@.len()
            && w.bodies@[w.collision_world.collision_objects@[o].rigidbody_id->Some_0 as int].collision_object_id
            == Some(o as usize))
}

/// Every manifold names valid collision objects that are linked to bodies.
pub open spec fn sw_manifolds_linked(w: &SimulationWorld) -> bool {
    forall|k: int|
        0 <= k < w.collision_world.contact_manifolds@.len() ==> ({
            let m = #[trigger] w.collision_world.contact_manifolds@[k];
            &&& 0 <= m.id_collision_object_a < w.collision_world.collision_objects@.len()
            &&& 0 <= m.id_collision_object_b < w.collision_world.collision_objects@.len()
            &&& w.collision_world.collision_objects@[m.id_collision_object_a as int].rigidbody_id is Some
            &&& w.collision_world.collision_objects@[m.id_collision_object_b as int].rigidbody_id is Some
        })
}

/// Every collision object is linked to a rigid body.
pub open spec fn sw_all_linked(w: &SimulationWorld) -> bool {
    forall|o: int|
        0 <= o < w.collision_world.collision_objects@.len() ==> (
        #[trigger] w.collision_world.collision_objects@[o]).rigidbody_id is Some
}

/// The body sequence after resolving one contact point between two
/// dynamic bodies: velocity resolution, then penetration resolution.
pub open spec fn resolve_two_point_s(
    bodies: Seq<RigidBody>,
    rb1: int,
    rb2: int,
    p: V3,
    n: V3,
    pen: int,
) -> Seq<RigidBody> {
    pen_res_two_s(vel_res_two_s(bodies, rb1, rb2, p, n), rb1, rb2, p, n, pen)
}

/// The body sequence after resolving the first `j` contact points of a
/// manifold between two dynamic bodies.
pub open spec fn resolve_two_upto_s(
    bodies: Seq<RigidBody>,
    rb1: int,
    rb2: int,
    pts: Seq<Vector3>,
    n: V3,
    pen: int,
    j: int,
) -> Seq<RigidBody>
    decreases j,
{
    if j <= 0 {
        bodies
    } else {
        resolve_two_point_s(
            resolve_two_upto_s(bodies, rb1, rb2, pts, n, pen, j - 1),
            rb1,
            rb2,
            pts[j - 1]@,
            n,
            pen,
        )
    }
}

/// One dynamic body after resolving one contact point against a static
/// wall: velocity resolution, then penetration resolution.
pub open spec fn resolve_one_point_s(b: RigidBody, p: V3, n: V3, pen: int) -> RigidBody {
    pen_res_one_s(vel_res_one_s(b, p, n), p, n, pen)
}

/// The body sequence after resolving the first `j` contact points of a
/// manifold whose other side is static.
pub open spec fn resolve_one_upto_s(
    bodies: Seq<RigidBody>,
    rb: int,
    pts: Seq<Vector3>,
    n: V3,
    pen: int,
    j: int,
) -> Seq<RigidBody>
    decreases j,
{
    if j <= 0 {
        bodies
    } else {
        let prev = resolve_one_upto_s(bodies, rb, pts, n, pen, j - 1);
        prev.update(rb, resolve_one_point_s(prev[rb], pts[j - 1]@, n, pen))
    }
}

/// The body sequence after one manifold's resolution: each contact point
/// in order, dispatched on the two bodies' static flags.
pub open spec fn solve_manifold_s(
    bodies: Seq<RigidBody>,
    objects: Seq<CollisionObject>,
    m: ContactManifold,
) -> Seq<RigidBody> {
    let rb1 = objects[m.id_collision_object_a as int].rigidbody_id->Some_0 as int;
    let rb2 = objects[m.id_collision_object_b as int].rigidbody_id->Some_0 as int;
    let s1 = bodies[rb1].is_static;
    let s2 = bodies[rb2].is_static;
    let pts = m.contact_infos.points@;
    let n = m.contact_infos.normal_a_to_b@;
    let pen = m.contact_infos.penetration_distance@;
    if !s1 && !s2 {
        if rb1 != rb2 {
            resolve_two_upto_s(bodies, rb1, rb2, pts, n, pen, pts.len() as int)
        } else {
            bodies
        }
    } else if !s1 && s2 {
        resolve_one_upto_s(bodies, rb1, pts, n, pen, pts.len() as int)
    } else if s1 && !s2 {
        resolve_one_upto_s(bodies, rb2, pts, vneg_s(n), pen, pts.len() as int)
    } else {
        bodies
    }
}

/// The body sequence after the first `k` manifolds' resolution, in order.
pub open spec fn solve_upto_s(
    bodies: Seq<RigidBody>,
    objects: Seq<CollisionObject>,
    manifolds: Seq<ContactManifold>,
    k: int,
) -> Seq<RigidBody>
    decreases k,
{
    if k <= 0 {
        bodies
    } else {
        solve_manifold_s(
            solve_upto_s(bodies, objects, manifolds, k - 1),
            objects,
            manifolds[k - 1],
        )
    }
}

impl SimulationWorld {
    /// A world with the given time step (1/60 s when none is given).
    pub fn new(time_step: Option<Fx>) -> (r: SimulationWorld)
        ensures
            r.bodies@.len() == 0,
            r.collision_world.collision_objects@.len() == 0,
            r.collision_world.contact_manifolds@.len() == 0,
            r.time_step@ == (match time_step {
                Option::Some(x) => x@,
                Option::None => consts::DELTA_TIME_RAW as int,
            }),
            sw_wf(&r),
    {
        let mut dt = consts::delta_time();
        if let Some(x) = time_step {
            dt = x;
        }
        SimulationWorld { bodies: Vec::new(), time_step: dt, collision_world: CollisionWorld::new() }
    }

    /// Register a body with its collision object; the two are linked both
    /// ways, the body's transform is mirrored onto the shape, and a dynamic
    /// body gets its inertia state built from the shape.
    #[verifier::rlimit(100)]
    pub fn add_rigidbody(&mut self, rb: RigidBody, co: CollisionObject) -> (id: usize)
        requires
            sw_wf(old(self)),
            shape_wf(&co.shape),
            !rb.is_static ==> !(co.shape is Plane) && det_s(shape_inertia_s(&co.shape, rb.mass@))
                != 0,
        ensures
            sw_wf(final(self)),
            id as int == old(self).bodies@.len(),
            final(self).bodies@.len() == old(self).bodies@.len() + 1,
            forall|i: int|
                0 <= i < old(self).bodies@.len() ==> final(self).bodies@[i] == old(self).bodies@[i],
            final(self).collision_world.collision_objects@.len() == old(self).collision_world.collision_objects@.len() + 1,
            forall|o: int|
                0 <= o < old(self).collision_world.collision_objects@.len() ==> final(self).collision_world.collision_objects@[o] == old(self).collision_world.collision_objects@[o],
            final(self).collision_world.contact_manifolds == old(self).collision_world.contact_manifolds,
            final(self).time_step == old(self).time_step,
            ({
                let b = final(self).bodies@[id as int];
                let o = final(self).collision_world.collision_objects@[old(self).collision_world.collision_objects@.len() as int];
                &&& b.id == id
                &&& b.is_static == rb.is_static
                &&& b.transform == rb.transform
                &&& b.mass == rb.mass
                &&& b.linear_velocity == rb.linear_velocity
                &&& (!rb.is_static ==> b.inertia_matrix@ == shape_inertia_s(&co.shape, rb.mass@)
                    && b.inv_inertia_matrix@ == crate::math::matrix::inverse_s(
                    shape_inertia_s(&co.shape, rb.mass@),
                ))
                &&& o.is_static == rb.is_static
                &&& o.enabled == co.enabled
                &&& o.rigidbody_id == Some(id)
                &&& crate::engine::shapes::shape_transform_set_s(
                    &co.shape,
                    &o.shape,
                    rb.transform@,
                )
            }),
    {
        let i = self.bodies.len();
        let mut rb = rb;
        rb.id = i;
        let mut co = co;
        let co_id = self.collision_world.collision_objects.len();
        co.id = co_id;
        rb.link_and_set_collision_object(&mut co);
        let added_id = self.collision_world.add_collision_object(co);
        self.bodies.push(rb);
        proof {
            assert(added_id == co_id);
        }
        i
    }

    /// The body of the given id.
    pub fn rigidbody_ref(&self, id: usize) -> (r: &RigidBody)
        requires
            id < self.bodies@.len(),
        ensures
            *r == self.bodies@[id as int],
    {
        &self.bodies[id]
    }

    /// Mutable access to the body of the given id.
    pub fn rigidbody_mut(&mut self, id: usize) -> (r: &mut RigidBody)
        requires
            id < old(self).bodies@.len(),
        ensures
            *r == old(self).bodies@[id as int],
            final(self).bodies@ == old(self).bodies@.update(id as int, *final(r)),
            final(self).collision_world == old(self).collision_world,
            final(self).time_step == old(self).time_step,
    {
        &mut self.bodies[id]
    }

    /// One resolution pass: for every manifold and every contact point,
    /// dispatch on the static flags of the two bodies (both dynamic: the
    /// two-body velocity and penetration resolution; one dynamic: the
    /// one-body versions against the static wall; both static: skip).
    /// Static bodies, the collision world and the time step are untouched.
    #[verifier::rlimit(100)]
    pub fn solve_contact_manifolds(&mut self)
        requires
            sw_wf(old(self)),
            sw_manifolds_linked(old(self)),
        ensures
            final(self).bodies@ == solve_upto_s(
                old(self).bodies@,
                old(self).collision_world.collision_objects@,
                old(self).collision_world.contact_manifolds@,
                old(self).collision_world.contact_manifolds@.len() as int,
            ),
            sw_wf(final(self)),
            final(self).collision_world == old(self).collision_world,
            final(self).time_step == old(self).time_step,
            final(self).bodies@.len() == old(self).bodies@.len(),
            forall|i: int|
                0 <= i < old(self).bodies@.len() ==> (#[trigger] final(self).bodies@[i]).is_static
                    == old(self).bodies@[i].is_static && final(self).bodies@[i].id == old(self).bodies@[i].id && final(self).bodies@[i].collision_object_id == old(self).bodies@[i].collision_object_id,
            forall|i: int|
                0 <= i < old(self).bodies@.len() && old(self).bodies@[i].is_static ==> (
                #[trigger] final(self).bodies@[i]) == old(self).bodies@[i],
    {
        let n_manifolds = self.collision_world.contact_manifolds.len();
        let mut mi: usize = 0;
        while mi < n_manifolds
            invariant
                0 <= mi <= n_manifolds,
                sw_wf(old(self)),
                sw_manifolds_linked(old(self)),
                n_manifolds == self.collision_world.contact_manifolds@.len(),
                self.bodies@ == solve_upto_s(
                    old(self).bodies@,
                    old(self).collision_world.collision_objects@,
                    old(self).collision_world.contact_manifolds@,
                    mi as int,
                ),
                self.collision_world == old(self).collision_world,
                self.time_step == old(self).time_step,
                self.bodies@.len() == old(self).bodies@.len(),
                forall|i: int|
                    0 <= i < old(self).bodies@.len() ==> (#[trigger] self.bodies@[i]).is_static
                        == old(self).bodies@[i].is_static && self.bodies@[i].id == old(self).bodies@[i].id && self.bodies@[i].collision_object_id == old(self).bodies@[i].collision_object_id,
                forall|i: int|
                    0 <= i < old(self).bodies@.len() && old(self).bodies@[i].is_static ==> (
                    #[trigger] self.bodies@[i]) == old(self).bodies@[i],
            decreases n_manifolds - mi,
        {
            let a_id = self.collision_world.contact_manifolds[mi].id_collision_object_a;
            let b_id = self.collision_world.contact_manifolds[mi].id_collision_object_b;
            let rb1_id = match self.collision_world.collision_objects[a_id].rigidbody_id {
                Some(r) => r,
                None => vstd::pervasive::unreached(),
            };
            let rb2_id = match self.collision_world.collision_objects[b_id].rigidbody_id {
                Some(r) => r,
                None => vstd::pervasive::unreached(),
            };

            let n_points = self.collision_world.contact_manifolds[mi].contact_infos.points.len();
            let s1 = self.bodies[rb1_id].is_static;
            let s2 = self.bodies[rb2_id].is_static;
            let ghost bm = self.bodies@;
            let ghost mv = self.collision_world.contact_manifolds@[mi as int];
            let ghost pts = mv.contact_infos.points@;
            let ghost nv = mv.contact_infos.normal_a_to_b@;
            let ghost pen_v = mv.contact_infos.penetration_distance@;
            proof {
                assert(mv == old(self).collision_world.contact_manifolds@[mi as int]);
                assert(old(self).collision_world.collision_objects@[mv.id_collision_object_a as int].rigidbody_id
                    == Some(rb1_id));
                assert(old(self).collision_world.collision_objects@[mv.id_collision_object_b as int].rigidbody_id
                    == Some(rb2_id));
                assert(s1 == bm[rb1_id as int].is_static);
                assert(s2 == bm[rb2_id as int].is_static);
                assert(s1 == old(self).bodies@[rb1_id as int].is_static);
                assert(s2 == old(self).bodies@[rb2_id as int].is_static);
                assert(n_points as int == pts.len() as int);
            }

            if !s1 && !s2 {
                if rb1_id != rb2_id {
                    let mut pi: usize = 0;
                    while pi < n_points
                        invariant
                            0 <= pi <= n_points,
                            n_points
                                == self.collision_world.contact_manifolds@[mi as int].contact_infos.points@.len(),
                            mi < n_manifolds,
                            n_manifolds == self.collision_world.contact_manifolds@.len(),
                            rb1_id < self.bodies@.len(),
                            rb2_id < self.bodies@.len(),
                            rb1_id != rb2_id,
                            !old(self).bodies@[rb1_id as int].is_static,
                            !old(self).bodies@[rb2_id as int].is_static,
                            mv == old(self).collision_world.contact_manifolds@[mi as int],
                            pts == mv.contact_infos.points@,
                            nv == mv.contact_infos.normal_a_to_b@,
                            pen_v == mv.contact_infos.penetration_distance@,
                            n_points as int == pts.len() as int,
                            self.bodies@ == resolve_two_upto_s(
                                bm,
                                rb1_id as int,
                                rb2_id as int,
                                pts,
                                nv,
                                pen_v,
                                pi as int,
                            ),
                            self.collision_world == old(self).collision_world,
                            self.time_step == old(self).time_step,
                            self.bodies@.len() == old(self).bodies@.len(),
                            forall|i: int|
                                0 <= i < old(self).bodies@.len() ==> (
                                #[trigger] self.bodies@[i]).is_static == old(self).bodies@[i].is_static && self.bodies@[i].id == old(self).bodies@[i].id && self.bodies@[i].collision_object_id == old(self).bodies@[i].collision_object_id,
                            forall|i: int|
                                0 <= i < old(self).bodies@.len() && old(self).bodies@[i].is_static ==> (#[trigger] self.bodies@[i]) == old(self).bodies@[i],
                        decreases n_points - pi,
                    {
                        let p = self.collision_world.contact_manifolds[mi].contact_infos.points[pi];
                        collision_solver::velocity_resolution_two_moving(
                            &mut self.bodies,
                            rb1_id,
                            rb2_id,
                            &p,
                            &self.collision_world.contact_manifolds[mi].contact_infos,
                        );
                        collision_solver::penetration_resolution_two_moving(
                            &mut self.bodies,
                            rb1_id,
                            rb2_id,
                            &p,
                            &self.collision_world.contact_manifolds[mi].contact_infos,
                        );
                        proof {
                            assert(p@ == pts[pi as int]@);
                        }
                        pi += 1;
                    }
                }
            } else if !s1 && s2 {
                let normal = self.collision_world.contact_manifolds[mi].contact_infos.normal_a_to_b;
                let pen = self.collision_world.contact_manifolds[mi].contact_infos.penetration_distance;
                let mut pi: usize = 0;
                while pi < n_points
                    invariant
                        0 <= pi <= n_points,
                        n_points
                            == self.collision_world.contact_manifolds@[mi as int].contact_infos.points@.len(),
                        mi < n_manifolds,
                        n_manifolds == self.collision_world.contact_manifolds@.len(),
                        rb1_id < self.bodies@.len(),
                        !self.bodies@[rb1_id as int].is_static,
                        !old(self).bodies@[rb1_id as int].is_static,
                        normal@ == nv,
                        pen@ == pen_v,
                        mv == old(self).collision_world.contact_manifolds@[mi as int],
                        pts == mv.contact_infos.points@,
                        nv == mv.contact_infos.normal_a_to_b@,
                        pen_v == mv.contact_infos.penetration_distance@,
                        n_points as int == pts.len() as int,
                        self.bodies@ == resolve_one_upto_s(
                            bm,
                            rb1_id as int,
                            pts,
                            nv,
                            pen_v,
                            pi as int,
                        ),
                        self.collision_world == old(self).collision_world,
                        self.time_step == old(self).time_step,
                        self.bodies@.len() == old(self).bodies@.len(),
                        forall|i: int|
                            0 <= i < old(self).bodies@.len() ==> (
                            #[trigger] self.bodies@[i]).is_static == old(self).bodies@[i].is_static && self.bodies@[i].id == old(self).bodies@[i].id && self.bodies@[i].collision_object_id == old(self).bodies@[i].collision_object_id,
                        forall|i: int|
                            0 <= i < old(self).bodies@.len() && old(self).bodies@[i].is_static
                                ==> (#[trigger] self.bodies@[i]) == old(self).bodies@[i],
                    decreases n_points - pi,
                {
                    let ghost prev = self.bodies@;
                    let p = self.collision_world.contact_manifolds[mi].contact_infos.points[pi];
                    let b = &mut self.bodies[rb1_id];
                    collision_solver::velocity_resolution_one_moving(b, &p, normal, pen);
                    let b = &mut self.bodies[rb1_id];
                    collision_solver::penetration_resolution_one_moving(b, &p, normal, pen);
                    proof {
                        assert(p@ == pts[pi as int]@);
                        assert(self.bodies@ =~= prev.update(
                            rb1_id as int,
                            resolve_one_point_s(prev[rb1_id as int], pts[pi as int]@, nv, pen_v),
                        ));
                    }
                    pi += 1;
                }
            } else if s1 && !s2 {
                let normal = self.collision_world.contact_manifolds[mi].contact_infos.normal_a_to_b.vneg();
                let pen = self.collision_world.contact_manifolds[mi].contact_infos.penetration_distance;
                let mut pi: usize = 0;
                while pi < n_points
                    invariant
                        0 <= pi <= n_points,
                        n_points
                            == self.collision_world.contact_manifolds@[mi as int].contact_infos.points@.len(),
                        mi < n_manifolds,
                        n_manifolds == self.collision_world.contact_manifolds@.len(),
                        rb2_id < self.bodies@.len(),
                        !self.bodies@[rb2_id as int].is_static,
                        !old(self).bodies@[rb2_id as int].is_static,
                        normal@ == vneg_s(nv),
                        pen@ == pen_v,
                        mv == old(self).collision_world.contact_manifolds@[mi as int],
                        pts == mv.contact_infos.points@,
                        nv == mv.contact_infos.normal_a_to_b@,
                        pen_v == mv.contact_infos.penetration_distance@,
                        n_points as int == pts.len() as int,
                        self.bodies@ == resolve_one_upto_s(
                            bm,
                            rb2_id as int,
                            pts,
                            vneg_s(nv),
                            pen_v,
                            pi as int,
                        ),
                        self.collision_world == old(self).collision_world,
                        self.time_step == old(self).time_step,
                        self.bodies@.len() == old(self).bodies@.len(),
                        forall|i: int|
                            0 <= i < old(self).bodies@.len() ==> (
                            #[trigger] self.bodies@[i]).is_static == old(self).bodies@[i].is_static && self.bodies@[i].id == old(self).bodies@[i].id && self.bodies@[i].collision_object_id == old(self).bodies@[i].collision_object_id,
                        forall|i: int|
                            0 <= i < old(self).bodies@.len() && old(self).bodies@[i].is_static
                                ==> (#[trigger] self.bodies@[i]) == old(self).bodies@[i],
                    decreases n_points - pi,
                {
                    let ghost prev = self.bodies@;
                    let p = self.collision_world.contact_manifolds[mi].contact_infos.points[pi];
                    let b = &mut self.bodies[rb2_id];
                    collision_solver::velocity_resolution_one_moving(b, &p, normal, pen);
                    let b = &mut self.bodies[rb2_id];
                    collision_solver::penetration_resolution_one_moving(b, &p, normal, pen);
                    proof {
                        assert(p@ == pts[pi as int]@);
                        assert(self.bodies@ =~= prev.update(
                            rb2_id as int,
                            resolve_one_point_s(
                                prev[rb2_id as int],
                                pts[pi as int]@,
                                vneg_s(nv),
                                pen_v,
                            ),
                        ));
                    }
                    pi += 1;
                }
            }
            proof {
                assert(self.bodies@ == solve_manifold_s(
                    bm,
                    old(self).collision_world.collision_objects@,
                    mv,
                ));
            }
            mi += 1;
        }
    }

    /// One full discrete step: detect collisions, resolve them, clear the
    /// manifolds, then integrate every dynamic body and mirror its new
    /// transform into its collision object.  The bodies end exactly at the
    /// integration of the resolved states: detection yields the manifold
    /// list `ms` that `step_result_s` pins, resolution folds the per-point
    /// solvers over it, and integration steps every dynamic body.
    /// Afterwards no manifold remains, every dynamic body's accumulators
    /// are zero, and every static body and its collision object are
    /// bitwise unchanged.
    #[verifier::loop_isolation(false)]
    #[verifier::rlimit(100)]
    pub fn discrete_step(&mut self)
        requires
            sw_wf(old(self)),
            sw_all_linked(old(self)),
            sw_manifolds_linked(old(self)),
        ensures
            exists|ms: Seq<ContactManifold>|
                #[trigger] step_result_s(&old(self).collision_world, ms) && final(self).bodies@
                    == integrate_all_s(
                    solve_upto_s(
                        old(self).bodies@,
                        old(self).collision_world.collision_objects@,
                        ms,
                        ms.len() as int,
                    ),
                    old(self).time_step@,
                ),
            sw_wf(final(self)),
            sw_all_linked(final(self)) == sw_all_linked(old(self)),
            sw_manifolds_linked(final(self)),
            final(self).collision_world.contact_manifolds@.len() == 0,
            final(self).collision_world.collision_objects@.len() == old(self).collision_world.collision_objects@.len(),
            forall|o: int|
                0 <= o < old(self).collision_world.collision_objects@.len() ==> (
                #[trigger] final(self).collision_world.collision_objects@[o]).rigidbody_id == old(
                    self,
                ).collision_world.collision_objects@[o].rigidbody_id,
            final(self).bodies@.len() == old(self).bodies@.len(),
            final(self).time_step == old(self).time_step,
            forall|i: int|
                0 <= i < old(self).bodies@.len() && !old(self).bodies@[i].is_static ==> (
                #[trigger] final(self).bodies@[i]).total_force@ == (crate::math::vector::V3 {
                    x: 0,
                    y: 0,
                    z: 0,
                }) && final(self).bodies@[i].total_torque@ == (crate::math::vector::V3 {
                    x: 0,
                    y: 0,
                    z: 0,
                }),
            forall|i: int|
                0 <= i < old(self).bodies@.len() && old(self).bodies@[i].is_static ==> (
                #[trigger] final(self).bodies@[i]) == old(self).bodies@[i],
            forall|o: int|
                0 <= o < old(self).collision_world.collision_objects@.len() && (
                #[trigger] old(self).collision_world.collision_objects@[o]).rigidbody_id is Some
                    && old(self).bodies@[old(self).collision_world.collision_objects@[o].rigidbody_id->Some_0 as int].is_static
                    ==> final(self).collision_world.collision_objects@[o] == old(self).collision_world.collision_objects@[o],
    {
        // 1. Advance the collision detection.
        let ghost base = self.collision_world.contact_manifolds@.len() as int;
        self.collision_world.step();

        // 2. Resolve the detected contacts.
        proof {
            assert forall|k: int|
                0 <= k < self.collision_world.contact_manifolds@.len() implies ({
                let m = #[trigger] self.collision_world.contact_manifolds@[k];
                &&& 0 <= m.id_collision_object_a < self.collision_world.collision_objects@.len()
                &&& 0 <= m.id_collision_object_b < self.collision_world.collision_objects@.len()
                &&& self.collision_world.collision_objects@[m.id_collision_object_a as int].rigidbody_id is Some
                &&& self.collision_world.collision_objects@[m.id_collision_object_b as int].rigidbody_id is Some
            }) by {
                if k < base {
                    assert(self.collision_world.contact_manifolds@[k] == old(
                        self,
                    ).collision_world.contact_manifolds@[k]);
                }
            }
        }
        let ghost ms = self.collision_world.contact_manifolds@;
        self.solve_contact_manifolds();
        let ghost mid = self.bodies@;
        proof {
            assert(mid == solve_upto_s(
                old(self).bodies@,
                old(self).collision_world.collision_objects@,
                ms,
                ms.len() as int,
            ));
        }
        self.collision_world.clear_manifold();

        // 3. Integrate the new state of every body and mirror it into the
        // collision objects.
        let n = self.bodies.len();
        let mut i: usize = 0;
        while i < n
            invariant
                0 <= i <= n,
                sw_wf(self),
                self.collision_world.contact_manifolds@.len() == 0,
                self.bodies@.len() == old(self).bodies@.len(),
                mid.len() == old(self).bodies@.len(),
                forall|k: int| i <= k < n ==> self.bodies@[k] == mid[k],
                forall|k: int|
                    0 <= k < i ==> self.bodies@[k] == integrate_all_s(
                        mid,
                        old(self).time_step@,
                    )[k],
                self.time_step == old(self).time_step,
                forall|k: int|
                    0 <= k < n && k < i && !old(self).bodies@[k].is_static ==> (
                    #[trigger] self.bodies@[k]).total_force@ == (crate::math::vector::V3 {
                        x: 0,
                        y: 0,
                        z: 0,
                    }) && self.bodies@[k].total_torque@ == (crate::math::vector::V3 {
                        x: 0,
                        y: 0,
                        z: 0,
                    }),
                forall|k: int|
                    0 <= k < n ==> (#[trigger] self.bodies@[k]).is_static == old(self).bodies@[k].is_static && self.bodies@[k].id == old(self).bodies@[k].id
                        && self.bodies@[k].collision_object_id == old(self).bodies@[k].collision_object_id,
                forall|k: int|
                    0 <= k < n && old(self).bodies@[k].is_static ==> (#[trigger] self.bodies@[k])
                        == old(self).bodies@[k],
                forall|o: int|
                    0 <= o < old(self).collision_world.collision_objects@.len() && (
                    #[trigger] old(self).collision_world.collision_objects@[o]).rigidbody_id is Some
                        && old(self).bodies@[old(self).collision_world.collision_objects@[o].rigidbody_id->Some_0 as int].is_static
                        ==> self.collision_world.collision_objects@[o] == old(self).collision_world.collision_objects@[o],
                self.collision_world.collision_objects@.len() == old(self).collision_world.collision_objects@.len(),
                forall|o: int|
                    0 <= o < old(self).collision_world.collision_objects@.len() ==> (
                    #[trigger] self.collision_world.collision_objects@[o]).rigidbody_id == old(
                        self,
                    ).collision_world.collision_objects@[o].rigidbody_id,
            decreases n - i,
        {
            let ghost pre_objs = self.collision_world.collision_objects@;
            let ghost coid = self.bodies@[i as int].collision_object_id;
            self.step_rigidbody(i);
            proof {
                assert forall|o: int|
                    0 <= o < old(self).collision_world.collision_objects@.len() implies (
                    #[trigger] self.collision_world.collision_objects@[o]).rigidbody_id == old(
                        self,
                    ).collision_world.collision_objects@[o].rigidbody_id by {
                    if o != coid->Some_0 as int {
                        assert(self.collision_world.collision_objects@[o] == pre_objs[o]);
                    }
                }
            }
            i += 1;
        }
        proof {
            assert(self.bodies@ =~= integrate_all_s(mid, old(self).time_step@));
            assert(step_result_s(&old(self).collision_world, ms) && self.bodies@
                == integrate_all_s(
                solve_upto_s(
                    old(self).bodies@,
                    old(self).collision_world.collision_objects@,
                    ms,
                    ms.len() as int,
                ),
                old(self).time_step@,
            ));
        }
    }

    /// Integrate one body (gravity, velocities, state) and mirror its new
    /// transform into its collision object; a static body is untouched.
    #[verifier::rlimit(100)]
    pub fn step_rigidbody(&mut self, id: usize)
        requires
            sw_wf(old(self)),
            id < old(self).bodies@.len(),
        ensures
            sw_wf(final(self)),
            final(self).bodies@.len() == old(self).bodies@.len(),
            final(self).time_step == old(self).time_step,
            final(self).collision_world.contact_manifolds == old(self).collision_world.contact_manifolds,
            final(self).collision_world.collision_objects@.len() == old(self).collision_world.collision_objects@.len(),
            forall|k: int|
                0 <= k < old(self).bodies@.len() && k != id as int ==> final(self).bodies@[k]
                    == old(self).bodies@[k],
            (old(self).bodies@[id as int].is_static ==> *final(self) == *old(self)),
            (!old(self).bodies@[id as int].is_static ==> ({
                let b0 = old(self).bodies@[id as int];
                let b1 = final(self).bodies@[id as int];
                &&& final(self).bodies@ == old(self).bodies@.update(
                    id as int,
                    stepped_body_s(b0, old(self).time_step@),
                )
                &&& b1.total_force@ == (crate::math::vector::V3 { x: 0, y: 0, z: 0 })
                &&& b1.total_torque@ == (crate::math::vector::V3 { x: 0, y: 0, z: 0 })
                &&& b1.is_static == b0.is_static
                &&& b1.id == b0.id
                &&& b1.collision_object_id == b0.collision_object_id
                &&& (forall|o: int|
                    0 <= o < old(self).collision_world.collision_objects@.len() && o != b0.collision_object_id->Some_0 as int
                        ==> final(self).collision_world.collision_objects@[o] == old(self).collision_world.collision_objects@[o])
                &&& crate::engine::shapes::shape_transform_set_s(
                    &old(self).collision_world.collision_objects@[b0.collision_object_id->Some_0 as int].shape,
                    &final(self).collision_world.collision_objects@[b0.collision_object_id->Some_0 as int].shape,
                    b1.transform@,
                )
            })),
    {
        if !self.bodies[id].is_static {
            let dt = self.time_step;
            let b = &mut self.bodies[id];
            b.apply_gravity();
            b.integrate_velocities(dt);
            b.integrate_state(dt);
            proof {
                reveal(stepped_body_s);
                let b0 = old(self).bodies@[id as int];
                let sb = stepped_body_s(b0, dt@);
                let cur = self.bodies@[id as int];
                let lv = stepped_lv_s(&b0, dt@);
                let av = stepped_av_s(&b0, dt@);
                let trf = crate::math::vector::vadd_s(
                    b0.transform.translation@,
                    crate::math::vector::vscale_s(lv, dt@),
                );
                let rotf = crate::math::quaternion::qto_mat3_s(
                    crate::math::quaternion::qrenorm_s(
                        crate::math::quaternion::qderivative_s(
                            crate::math::quaternion::from_mat3_s(b0.transform.rotation@),
                            crate::math::quaternion::qscale_s(
                                crate::math::quaternion::qfrom_vec_s(av),
                                dt@,
                            ),
                        ),
                    ),
                );
                crate::math::vector::lemma_v3_of(cur.linear_velocity, lv);
                crate::math::vector::lemma_v3_of(cur.angular_velocity, av);
                crate::math::vector::lemma_v3_of(cur.total_force, V3 { x: 0, y: 0, z: 0 });
                crate::math::vector::lemma_v3_of(cur.total_torque, V3 { x: 0, y: 0, z: 0 });
                crate::math::vector::lemma_v3_of(cur.transform.translation, trf);
                crate::math::matrix::lemma_m3_of(cur.transform.rotation, rotf);
                crate::math::vector::lemma_v3_of(
                    cur.center_of_mass,
                    crate::math::vector::vadd_s(b0.local_center_of_mass@, trf),
                );
                crate::math::matrix::lemma_m3_of(
                    cur.inv_inertia_tensor,
                    crate::math::matrix::mat_mul_s(
                        rotf,
                        crate::math::matrix::mat_mul_s(
                            b0.inv_inertia_matrix@,
                            rigid_body::rinv_def_s(rotf),
                        ),
                    ),
                );
                assert(cur == sb);
                assert(self.bodies@ =~= old(self).bodies@.update(id as int, sb));
            }

            // 4. Mirror the new transform onto the collision object.
            let t = self.bodies[id].transform;
            let coid = self.bodies[id].collision_object_id();
            self.collision_world.update_transform_collision_object(coid, t);
        }
    }
}

/// A dynamic body after one full integration step: gravity folded into
/// the velocities, position advanced by the new linear velocity, the
/// orientation turned by the quaternion derivative of the new angular
/// velocity and renormalized, the world center of mass and inverse inertia
/// tensor refreshed, and the accumulators cleared.
#[verifier::opaque]
pub open spec fn stepped_body_s(b: RigidBody, dt: int) -> RigidBody {
    let lv = stepped_lv_s(&b, dt);
    let av = stepped_av_s(&b, dt);
    let tr = crate::math::vector::vadd_s(
        b.transform.translation@,
        crate::math::vector::vscale_s(lv, dt),
    );
    let rot = crate::math::quaternion::qto_mat3_s(
        crate::math::quaternion::qrenorm_s(
            crate::math::quaternion::qderivative_s(
                crate::math::quaternion::from_mat3_s(b.transform.rotation@),
                crate::math::quaternion::qscale_s(crate::math::quaternion::qfrom_vec_s(av), dt),
            ),
        ),
    );
    RigidBody {
        linear_velocity: v3_of(lv),
        angular_velocity: v3_of(av),
        total_force: v3_of(V3 { x: 0, y: 0, z: 0 }),
        total_torque: v3_of(V3 { x: 0, y: 0, z: 0 }),
        transform: crate::math::transform::Transform {
            rotation: crate::math::matrix::m3_of(rot),
            translation: v3_of(tr),
        },
        center_of_mass: v3_of(crate::math::vector::vadd_s(b.local_center_of_mass@, tr)),
        inv_inertia_tensor: crate::math::matrix::m3_of(
            crate::math::matrix::mat_mul_s(
                rot,
                crate::math::matrix::mat_mul_s(
                    b.inv_inertia_matrix@,
                    rigid_body::rinv_def_s(rot),
                ),
            ),
        ),
        ..b
    }
}

/// Every dynamic body of a sequence after one integration step; static
/// bodies are untouched.
pub open spec fn integrate_all_s(bodies: Seq<RigidBody>, dt: int) -> Seq<RigidBody> {
    Seq::new(
        bodies.len(),
        |i: int|
            if bodies[i].is_static {
                bodies[i]
            } else {
                stepped_body_s(bodies[i], dt)
            },
    )
}

/// The linear velocity after gravity and velocity integration.
pub open spec fn stepped_lv_s(b: &RigidBody, dt: int) -> crate::math::vector::V3 {
    let f1 = crate::math::vector::vadd_s(
        b.total_force@,
        crate::math::vector::vmulv_s(
            crate::math::vector::vscale_s(
                crate::math::vector::V3 {
                    x: 0,
                    y: -(consts::GRAVITY_ACCELERATION_RAW as int),
                    z: 0,
                },
                b.mass@,
            ),
            b.translation_moving_axis@,
        ),
    );
    crate::math::vector::vadd_s(
        b.linear_velocity@,
        crate::math::vector::vscale_s(
            crate::math::vector::vscale_s(
                crate::math::vector::vscale_s(f1, b.inv_mass@),
                dt,
            ),
            consts::AIR_RESISTANCE_RAW as int,
        ),
    )
}

/// The angular velocity after velocity integration (gravity adds no
/// torque).
pub open spec fn stepped_av_s(b: &RigidBody, dt: int) -> crate::math::vector::V3 {
    crate::math::vector::vadd_s(
        b.angular_velocity@,
        crate::math::vector::vscale_s(
            crate::math::matrix::mat_vec_s(b.inv_inertia_tensor@, b.total_torque@),
            dt,
        ),
    )
}

} // verus!
