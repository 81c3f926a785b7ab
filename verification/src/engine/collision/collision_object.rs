//! A collision object: a shape with an id, an enabled flag, and the
//! back-link to its rigid body.

use crate::engine::shapes::Shape;
use vstd::prelude::*;

verus! {

/// A shape registered in the collision world.
pub struct CollisionObject {
    pub enabled: bool,
    pub id: usize,
    pub shape: Shape,
    pub rigidbody_id: Option<usize>,
    pub is_static: bool,
}

impl CollisionObject {
    /// A fresh, enabled, unlinked object; the world assigns the id.
    pub fn new(shape: Shape) -> (r: CollisionObject)
        ensures
            r.enabled == true,
            r.id == 0usize,
            r.shape == shape,
            r.rigidbody_id is None,
            r.is_static == false,
    {
        CollisionObject { enabled: true, id: 0, shape, rigidbody_id: None, is_static: false }
    }
}

} // verus!
