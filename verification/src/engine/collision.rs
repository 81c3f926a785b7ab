//! The collision world: the set of collision objects and the contact
//! manifolds of the current step.

pub mod collision_object;

pub use collision_object::CollisionObject;

use crate::engine::contact_algorithms::{ContactManifold, ContactInformations};
use crate::engine::intersection_algorithms::intersection_wrapper::{
    compute_contact, dispatch_s, shape_wf,
};
use crate::math::transform::Transform;
use vstd::prelude::*;

verus! {

/// Objects are stored at the index equal to their id, so ids are assigned
/// monotonically and iteration order is the id order, which keeps the
/// manifolds of one step deterministic.
pub struct CollisionWorld {
    pub collision_objects: Vec<CollisionObject>,
    pub contact_manifolds: Vec<ContactManifold>,
}

/// Every stored object carries its own index as id and a well-formed shape.
pub open spec fn cw_wf(w: &CollisionWorld) -> bool {
    forall|i: int|
        0 <= i < w.collision_objects@.len() ==> (#[trigger] w.collision_objects@[i]).id == i
            && shape_wf(&w.collision_objects@[i].shape)
}

/// Whether the pair `(i, j)` must be tested: both enabled, not both static.
pub open spec fn pair_eligible_s(w: &CollisionWorld, i: int, j: int) -> bool {
    &&& w.collision_objects@[i].enabled
    &&& w.collision_objects@[j].enabled
    &&& !(w.collision_objects@[i].is_static && w.collision_objects@[j].is_static)
}

/// Strict ordering of manifolds by their (a, b) pair.
pub open spec fn pair_lt_s(m1: &ContactManifold, m2: &ContactManifold) -> bool {
    m1.id_collision_object_a < m2.id_collision_object_a || (m1.id_collision_object_a
        == m2.id_collision_object_a && m1.id_collision_object_b < m2.id_collision_object_b)
}

/// The manifold `m` is exactly what the dispatch produces for the pair
/// `(i, j)`.
pub open spec fn manifold_of_pair_s(w: &CollisionWorld, m: &ContactManifold, i: int, j: int)
    -> bool {
    &&& m.id_collision_object_a == i
    &&& m.id_collision_object_b == j
    &&& dispatch_s(&w.collision_objects@[i].shape, &w.collision_objects@[j].shape)
        == Option::Some(m.contact_infos@)
}

/// What `step` leaves in the manifold list: the old manifolds unchanged,
/// followed by the dispatch results of exactly the eligible overlapping
/// pairs, each at most once, in strictly increasing pair order.
pub open spec fn step_result_s(w: &CollisionWorld, ms: Seq<ContactManifold>) -> bool {
    let base = w.contact_manifolds@.len() as int;
    &&& ms.len() >= base
    &&& (forall|k: int| 0 <= k < base ==> ms[k] == w.contact_manifolds@[k])
    // soundness: every appended manifold is the dispatch result of an
    // eligible pair
    &&& (forall|k: int|
        base <= k < ms.len() ==> ({
            let m = #[trigger] ms[k];
            &&& 0 <= m.id_collision_object_a < m.id_collision_object_b
                < w.collision_objects@.len()
            &&& pair_eligible_s(w, m.id_collision_object_a as int, m.id_collision_object_b as int)
            &&& manifold_of_pair_s(
                w,
                &m,
                m.id_collision_object_a as int,
                m.id_collision_object_b as int,
            )
        }))
    // completeness: every eligible overlapping pair appears
    &&& (forall|i: int, j: int|
        0 <= i < j < w.collision_objects@.len() && pair_eligible_s(w, i, j) && !(
        #[trigger] dispatch_s(
            &w.collision_objects@[i].shape,
            &w.collision_objects@[j].shape,
        ) is None) ==> exists|k: int|
            base <= k < ms.len() && ms[k].id_collision_object_a == i
                && ms[k].id_collision_object_b == j)
    // at most one manifold per pair: strictly increasing pair order
    &&& (forall|k1: int, k2: int|
        base <= k1 < k2 < ms.len() ==> pair_lt_s(&ms[k1], &ms[k2]))
}

impl CollisionWorld {
    pub fn new() -> (r: CollisionWorld)
        ensures
            r.collision_objects@.len() == 0,
            r.contact_manifolds@.len() == 0,
            cw_wf(&r),
    {
        CollisionWorld { collision_objects: Vec::new(), contact_manifolds: Vec::new() }
    }

    /// Register an object; its id is the next free index.
    pub fn add_collision_object(&mut self, o: CollisionObject) -> (id: usize)
        requires
            cw_wf(old(self)),
            shape_wf(&o.shape),
        ensures
            cw_wf(final(self)),
            id as int == old(self).collision_objects@.len(),
            final(self).collision_objects@.len() == old(self).collision_objects@.len() + 1,
            forall|i: int|
                0 <= i < old(self).collision_objects@.len() ==> final(self).collision_objects@[i]
                    == old(self).collision_objects@[i],
            ({
                let n = final(self).collision_objects@[id as int];
                &&& n.id == id
                &&& n.enabled == o.enabled
                &&& n.shape == o.shape
                &&& n.rigidbody_id == o.rigidbody_id
                &&& n.is_static == o.is_static
            }),
            final(self).contact_manifolds == old(self).contact_manifolds,
    {
        let id = self.collision_objects.len();
        let mut o = o;
        o.id = id;
        self.collision_objects.push(o);
        id
    }

    /// The object of the given id, or an error for an unknown id.
    pub fn collision_object_ref(&self, id: usize) -> (r: Result<&CollisionObject, &'static str>)
        ensures
            (match r {
                Result::Ok(o) => id < self.collision_objects@.len() && *o
                    == self.collision_objects@[id as int],
                Result::Err(_) => id >= self.collision_objects@.len(),
            }),
    {
        if id < self.collision_objects.len() {
            Ok(&self.collision_objects[id])
        } else {
            Err("collision_object_ref() = Can't find the CollisionObject associated with this id.")
        }
    }

    /// Mutable access to the object of the given id; the world after the
    /// call holds whatever the caller wrote through the reference.
    pub fn collision_object_mut(&mut self, id: usize) -> (r: &mut CollisionObject)
        requires
            id < old(self).collision_objects@.len(),
        ensures
            *r == old(self).collision_objects@[id as int],
            final(self).collision_objects@ == old(self).collision_objects@.update(
                id as int,
                *final(r),
            ),
            final(self).contact_manifolds == old(self).contact_manifolds,
    {
        &mut self.collision_objects[id]
    }

    /// Write a transform into the shape of the object of the given id.
    pub fn update_transform_collision_object(&mut self, id: usize, transform: Transform)
        requires
            cw_wf(old(self)),
            id < old(self).collision_objects@.len(),
        ensures
            cw_wf(final(self)),
            final(self).collision_objects@.len() == old(self).collision_objects@.len(),
            forall|i: int|
                0 <= i < old(self).collision_objects@.len() && i != id as int ==> final(self).collision_objects@[i] == old(self).collision_objects@[i],
            ({
                let n = final(self).collision_objects@[id as int];
                let o = old(self).collision_objects@[id as int];
                &&& n.id == o.id
                &&& n.enabled == o.enabled
                &&& n.rigidbody_id == o.rigidbody_id
                &&& n.is_static == o.is_static
                &&& crate::engine::shapes::shape_transform_set_s(&o.shape, &n.shape, transform@)
            }),
            final(self).contact_manifolds == old(self).contact_manifolds,
    {
        let o = &mut self.collision_objects[id];
        o.shape.set_transform(transform);
    }

    /// One-shot query: the manifold of the pair, if the shapes overlap.
    pub fn are_colliding(&self, id1_collision_object: usize, id2_collision_object: usize) -> (r:
        Option<ContactManifold>)
        requires
            cw_wf(self),
            id1_collision_object < self.collision_objects@.len(),
            id2_collision_object < self.collision_objects@.len(),
        ensures
            (match r {
                Option::Some(cm) => manifold_of_pair_s(
                    self,
                    &cm,
                    id1_collision_object as int,
                    id2_collision_object as int,
                ),
                Option::None => dispatch_s(
                    &self.collision_objects@[id1_collision_object as int].shape,
                    &self.collision_objects@[id2_collision_object as int].shape,
                ) is None,
            }),
    {
        let shape_i = &self.collision_objects[id1_collision_object].shape;
        let shape_j = &self.collision_objects[id2_collision_object].shape;
        match compute_contact(shape_i, shape_j) {
            Some(contact_infos) => Some(
                ContactManifold {
                    id_collision_object_a: id1_collision_object,
                    id_collision_object_b: id2_collision_object,
                    contact_infos,
                },
            ),
            None => None,
        }
    }

    /// Test every unordered pair `(i, j)` with `i < j`, in id order, where
    /// both objects are enabled and at least one is not static; append one
    /// manifold per overlapping pair.  The appended manifolds are exactly
    /// those pairs, each at most once, in strictly increasing pair order.
    #[verifier::rlimit(100)]
    pub fn step(&mut self)
        requires
            cw_wf(old(self)),
        ensures
            cw_wf(final(self)),
            final(self).collision_objects == old(self).collision_objects,
            step_result_s(old(self), final(self).contact_manifolds@),
    {
        let n = self.collision_objects.len();
        let ghost base = self.contact_manifolds@.len() as int;
        let mut i: usize = 0;
        while i < n
            invariant
                0 <= i <= n,
                cw_wf(old(self)),
                cw_wf(self),
                n == self.collision_objects@.len(),
                base == old(self).contact_manifolds@.len() as int,
                self.collision_objects == old(self).collision_objects,
                self.contact_manifolds@.len() >= base,
                forall|k: int| 0 <= k < base ==> self.contact_manifolds@[k] == old(self).contact_manifolds@[k],
                forall|k: int|
                    base <= k < self.contact_manifolds@.len() ==> ({
                        let m = #[trigger] self.contact_manifolds@[k];
                        &&& 0 <= m.id_collision_object_a < m.id_collision_object_b < n
                        &&& m.id_collision_object_a < i
                        &&& pair_eligible_s(
                            self,
                            m.id_collision_object_a as int,
                            m.id_collision_object_b as int,
                        )
                        &&& manifold_of_pair_s(
                            self,
                            &m,
                            m.id_collision_object_a as int,
                            m.id_collision_object_b as int,
                        )
                    }),
                forall|k1: int, k2: int|
                    base <= k1 < k2 < self.contact_manifolds@.len() ==> pair_lt_s(
                        &self.contact_manifolds@[k1],
                        &self.contact_manifolds@[k2],
                    ),
                forall|a: int, b: int|
                    0 <= a < b < n && a < i && pair_eligible_s(self, a, b) && !(#[trigger]
                    dispatch_s(
                        &self.collision_objects@[a].shape,
                        &self.collision_objects@[b].shape,
                    ) is None) ==> exists|k: int|
                        base <= k < self.contact_manifolds@.len()
                            && self.contact_manifolds@[k].id_collision_object_a == a
                            && self.contact_manifolds@[k].id_collision_object_b == b,
            decreases n - i,
        {
            if self.collision_objects[i].enabled {
                let mut j: usize = i + 1;
                while j < n
                    invariant
                        i < j <= n,
                        cw_wf(old(self)),
                        cw_wf(self),
                        n == self.collision_objects@.len(),
                        base == old(self).contact_manifolds@.len() as int,
                        self.collision_objects == old(self).collision_objects,
                        self.collision_objects@[i as int].enabled,
                        self.contact_manifolds@.len() >= base,
                        forall|k: int| 0 <= k < base ==> self.contact_manifolds@[k] == old(self).contact_manifolds@[k],
                        forall|k: int|
                            base <= k < self.contact_manifolds@.len() ==> ({
                                let m = #[trigger] self.contact_manifolds@[k];
                                &&& 0 <= m.id_collision_object_a < m.id_collision_object_b < n
                                &&& (m.id_collision_object_a < i || (m.id_collision_object_a == i
                                    && m.id_collision_object_b < j))
                                &&& pair_eligible_s(
                                    self,
                                    m.id_collision_object_a as int,
                                    m.id_collision_object_b as int,
                                )
                                &&& manifold_of_pair_s(
                                    self,
                                    &m,
                                    m.id_collision_object_a as int,
                                    m.id_collision_object_b as int,
                                )
                            }),
                        forall|k1: int, k2: int|
                            base <= k1 < k2 < self.contact_manifolds@.len() ==> pair_lt_s(
                                &self.contact_manifolds@[k1],
                                &self.contact_manifolds@[k2],
                            ),
                        forall|a: int, b: int|
                            0 <= a < b < n && (a < i || (a == i && b < j)) && pair_eligible_s(
                                self,
                                a,
                                b,
                            ) && !(#[trigger] dispatch_s(
                                &self.collision_objects@[a].shape,
                                &self.collision_objects@[b].shape,
                            ) is None) ==> exists|k: int|
                                base <= k < self.contact_manifolds@.len()
                                    && self.contact_manifolds@[k].id_collision_object_a == a
                                    && self.contact_manifolds@[k].id_collision_object_b == b,
                    decreases n - j,
                {
                    let skip = !self.collision_objects[j].enabled || (
                    self.collision_objects[i].is_static && self.collision_objects[j].is_static);
                    if !skip {
                        match self.are_colliding(i, j) {
                            Some(cm) => {
                                let ghost premani = self.contact_manifolds@;
                                self.contact_manifolds.push(cm);
                                proof {
                                    let ln = self.contact_manifolds@.len() as int;
                                    assert(self.contact_manifolds@[ln - 1].id_collision_object_a
                                        == i);
                                    assert(self.contact_manifolds@[ln - 1].id_collision_object_b
                                        == j);
                                    assert forall|t: int| 0 <= t < ln - 1 implies
                                        self.contact_manifolds@[t] == premani[t] by {}
                                    assert forall|a: int, b: int|
                                        0 <= a < b < n && (a < i as int || (a == i as int && b
                                            < j as int + 1)) && pair_eligible_s(self, a, b) && !(
                                        #[trigger] dispatch_s(
                                            &self.collision_objects@[a].shape,
                                            &self.collision_objects@[b].shape,
                                        ) is None) implies exists|k: int|
                                            base <= k < self.contact_manifolds@.len()
                                                && self.contact_manifolds@[k].id_collision_object_a
                                                == a
                                                && self.contact_manifolds@[k].id_collision_object_b
                                                == b by {
                                        if a == i as int && b == j as int {
                                            assert(base <= ln - 1
                                                < self.contact_manifolds@.len()
                                                && self.contact_manifolds@[ln - 1].id_collision_object_a
                                                == a
                                                && self.contact_manifolds@[ln - 1].id_collision_object_b
                                                == b);
                                        } else {
                                            let k0 = choose|k: int|
                                                base <= k < premani.len()
                                                    && premani[k].id_collision_object_a == a
                                                    && premani[k].id_collision_object_b == b;
                                            assert(self.contact_manifolds@[k0] == premani[k0]);
                                            assert(base <= k0 < self.contact_manifolds@.len()
                                                && self.contact_manifolds@[k0].id_collision_object_a
                                                == a
                                                && self.contact_manifolds@[k0].id_collision_object_b
                                                == b);
                                        }
                                    }
                                }
                            },
                            None => {},
                        }
                    }
                    j += 1;
                }
            }
            i += 1;
        }
    }

    /// Drop all manifolds.
    pub fn clear_manifold(&mut self)
        ensures
            final(self).contact_manifolds@.len() == 0,
            final(self).collision_objects == old(self).collision_objects,
    {
        self.contact_manifolds.clear();
    }
}

} // verus!
