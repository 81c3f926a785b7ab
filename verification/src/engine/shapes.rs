//! Collision shapes: sphere, plane and oriented bounding box, with a tagged
//! union over them for constant-time dispatch.

pub mod obb;
pub mod plane;
pub mod segment;
pub mod sphere;

pub use obb::OBB;
pub use plane::Plane;
pub use segment::Segment;
pub use sphere::Sphere;

use crate::math::matrix::{mdiag_s, M3};
use crate::math::transform::{Tf, Transform};
use crate::math::vector::V3;
use crate::math::Mat3;
use crate::fixed::Fx;
use vstd::prelude::*;

verus! {

/// The tag of a shape.
#[derive(Clone, Copy, Debug, PartialEq, Eq, Structural)]
pub enum ShapeType {
    Sphere,
    OBB,
    Plane,
    Segment,
}

/// A shape value: the tagged union the dispatch table is indexed by.
pub enum Shape {
    Sphere(Sphere),
    OBB(OBB),
    Plane(Plane),
}

impl Shape {
    pub fn shape_type(&self) -> (r: ShapeType)
        ensures
            r == (match self {
                Shape::Sphere(_) => ShapeType::Sphere,
                Shape::OBB(_) => ShapeType::OBB,
                Shape::Plane(_) => ShapeType::Plane,
            }),
    {
        match self {
            Shape::Sphere(_) => ShapeType::Sphere,
            Shape::OBB(_) => ShapeType::OBB,
            Shape::Plane(_) => ShapeType::Plane,
        }
    }

    /// Whether the shape may carry a rigid body (a plane has no inertia).
    pub fn is_rigid_body(&self) -> (r: bool)
        ensures
            r == !(self is Plane),
    {
        match self {
            Shape::Plane(_) => false,
            _ => true,
        }
    }

    /// The inertia matrix of the shape's solid for the given mass; a plane
    /// has none and is refused.
    pub fn compute_inertia_matrix(&self, mass: Fx) -> (r: Mat3)
        requires
            !(self is Plane),
        ensures
            r@ == shape_inertia_s(self, mass@),
    {
        match self {
            Shape::Sphere(s) => s.compute_inertia_matrix(mass),
            Shape::OBB(o) => o.compute_inertia_matrix(mass),
            Shape::Plane(_) => vstd::pervasive::unreached(),
        }
    }

    /// The transform the shape currently carries.
    pub fn get_transform(&self) -> (r: Transform)
        ensures
            r@ == shape_transform_s(self),
    {
        match self {
            Shape::Sphere(s) => Transform::translation(s.position),
            Shape::OBB(o) => o.transform,
            Shape::Plane(p) => p.get_transform(),
        }
    }

    /// Write a transform into the shape; a sphere keeps only the
    /// translation, a plane re-derives its distance from the origin.
    pub fn set_transform(&mut self, t: Transform)
        ensures
            shape_transform_set_s(old(self), final(self), t@),
    {
        match self {
            Shape::Sphere(s) => {
                s.position = t.translation;
            },
            Shape::OBB(o) => {
                o.transform = t;
            },
            Shape::Plane(p) => {
                p.set_transform(t);
            },
        }
    }
}

/// The inertia matrix of a shape's solid (zero for a plane, whose inertia
/// is undefined and refused by the executable path).
pub open spec fn shape_inertia_s(s: &Shape, mass: int) -> M3 {
    match s {
        Shape::Sphere(sp) => crate::engine::shapes::sphere::sphere_inertia_s(sp.radius@, mass),
        Shape::OBB(o) => crate::engine::shapes::obb::obb_inertia_s(o@.half_side, mass),
        Shape::Plane(_) => crate::math::matrix::mzero_s(),
    }
}

/// The transform a shape carries (a sphere carries only a position).
pub open spec fn shape_transform_s(s: &Shape) -> Tf {
    match s {
        Shape::Sphere(sp) => Tf {
            rotation: crate::math::matrix::mid_s(),
            translation: sp.position@,
        },
        Shape::OBB(o) => o.transform@,
        Shape::Plane(p) => p@.transform,
    }
}

/// How `set_transform` updates each kind of shape.
pub open spec fn shape_transform_set_s(before: &Shape, after: &Shape, t: Tf) -> bool {
    match before {
        Shape::Sphere(sp) => {
            &&& after is Sphere
            &&& after->Sphere_0.radius == sp.radius
            &&& after->Sphere_0.position@ == t.translation
        },
        Shape::OBB(o) => {
            &&& after is OBB
            &&& after->OBB_0.transform@ == t
            &&& after->OBB_0.half_side == o.half_side
            &&& after->OBB_0.vertices == o.vertices
            &&& after->OBB_0.edges == o.edges
            &&& after->OBB_0.faces == o.faces
        },
        Shape::Plane(p) => {
            &&& after is Plane
            &&& after->Plane_0@ == crate::engine::shapes::plane::plane_set_transform_s(p@, t)
        },
    }
}

} // verus!
