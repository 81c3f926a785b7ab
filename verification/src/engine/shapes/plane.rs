//! The plane shape: a unit normal with a transform, keeping its distance
//! from the origin cached.

use crate::fixed::{Fx, SCALE};
use crate::math::transform::{Tf, Transform};
use crate::math::vector::{
    dot, dot_s, magnitude, normalized_s, projection, projection_s, rejection, rejection_s,
    vadd_s, vdivs_s, vmag_s, vsub_s, Vector3, V3,
};
use crate::math::Mat3;
use vstd::prelude::*;

verus! {

/// Spec-level image of a plane.
pub ghost struct PlaneV {
    pub normal: V3,
    pub distance_from_origin: int,
    pub transform: Tf,
}

/// A plane through `transform.translation` with the given unit normal.
pub struct Plane {
    pub normal: Vector3,
    pub distance_from_origin: Fx,
    pub transform: Transform,
}

impl View for Plane {
    type V = PlaneV;

    open spec fn view(&self) -> PlaneV {
        PlaneV {
            normal: self.normal@,
            distance_from_origin: self.distance_from_origin@,
            transform: self.transform@,
        }
    }
}

/// The constructor's normal: divided by its own magnitude unless that is
/// exactly 1 already.
pub open spec fn plane_new_normal_s(normal: V3) -> V3 {
    if vmag_s(normal) == SCALE as int {
        normal
    } else {
        vdivs_s(normal, vmag_s(normal))
    }
}

/// The mean of the four corners of face `f` of a box, divided coordinate
/// by coordinate.
pub open spec fn face_mid_s(o: crate::engine::shapes::obb::ObbV, f: int) -> V3 {
    let w = |k: int|
        crate::engine::shapes::obb::obb_world_vertex_s(
            o,
            crate::engine::shapes::obb::obb_face_s(f, k),
        );
    let sum = vadd_s(
        vadd_s(vadd_s(vadd_s(V3 { x: 0, y: 0, z: 0 }, w(0)), w(1)), w(2)),
        w(3),
    );
    vdivs_s(sum, 4 * SCALE as int)
}

/// Signed distance of `p` from the plane: positive on the normal's side.
pub open spec fn signed_distance_s(pl: PlaneV, p: V3) -> int {
    dot_s(pl.normal, vsub_s(p, pl.transform.translation))
}

/// `p` dropped along the normal onto the plane.
pub open spec fn reject_point_on_plane_s(pl: PlaneV, p: V3) -> V3 {
    vadd_s(rejection_s(pl.normal, p), projection_s(pl.normal, pl.transform.translation))
}

/// The plane after `set_transform`: transform replaced, cached distance
/// recomputed.
pub open spec fn plane_set_transform_s(pl: PlaneV, t: Tf) -> PlaneV {
    PlaneV {
        normal: pl.normal,
        distance_from_origin: vmag_s(t.translation),
        transform: t,
    }
}

/// The plane after `set_position`: translation replaced, cached distance
/// recomputed.
pub open spec fn plane_set_position_s(pl: PlaneV, p: V3) -> PlaneV {
    PlaneV {
        normal: pl.normal,
        distance_from_origin: vmag_s(p),
        transform: Tf { rotation: pl.transform.rotation, translation: p },
    }
}

impl Plane {
    /// A plane through the origin; the normal is divided by its own
    /// magnitude when it is not unit length already.
    pub fn new(normal: Vector3) -> (r: Plane)
        ensures
            r@ == (PlaneV {
                normal: plane_new_normal_s(normal@),
                distance_from_origin: 0,
                transform: crate::math::transform::tident_s(),
            }),
    {
        let m = magnitude(&normal);
        let n = if m.0 != SCALE {
            normal.divs(m)
        } else {
            normal
        };
        Plane { normal: n, distance_from_origin: Fx(0), transform: Transform::identity() }
    }

    /// The carrier plane of one face of a box: the face's normal through
    /// the mean of its four corners.
    pub fn from_polyhedron_face(polyhedron: &crate::engine::shapes::obb::OBB, face_idx: usize)
        -> (r: Plane)
        requires
            crate::engine::shapes::obb::obb_wf(polyhedron@),
            face_idx < 6,
        ensures
            r@ == plane_set_position_s(
                (PlaneV {
                    normal: plane_new_normal_s(
                        crate::engine::shapes::obb::obb_face_normal_s(
                            polyhedron@,
                            face_idx as int,
                        ),
                    ),
                    distance_from_origin: 0,
                    transform: crate::math::transform::tident_s(),
                }),
                face_mid_s(polyhedron@, face_idx as int),
            ),
    {
        proof {
            assert(polyhedron@.faces.len() == 6);
            assert(polyhedron.faces@.len() == 6);
            assert(polyhedron@.faces[face_idx as int] == polyhedron.faces@[
                face_idx as int].v_i@.map_values(|u: usize| u as int));
            assert(polyhedron@.faces[face_idx as int].len() == 4);
            assert(polyhedron.faces@[face_idx as int].v_i@.len() == 4);
            assert(polyhedron.faces@[face_idx as int].v_i@[0] as int == polyhedron@.faces[
                face_idx as int][0]);
            assert(polyhedron.faces@[face_idx as int].v_i@[1] as int == polyhedron@.faces[
                face_idx as int][1]);
            assert(polyhedron.faces@[face_idx as int].v_i@[2] as int == polyhedron@.faces[
                face_idx as int][2]);
            assert(polyhedron.faces@[face_idx as int].v_i@[3] as int == polyhedron@.faces[
                face_idx as int][3]);
            assert(polyhedron@.faces[face_idx as int][0] == crate::engine::shapes::obb::obb_face_s(
                face_idx as int,
                0,
            ) && 0 <= crate::engine::shapes::obb::obb_face_s(face_idx as int, 0) < 8);
            assert(polyhedron@.faces[face_idx as int][1] == crate::engine::shapes::obb::obb_face_s(
                face_idx as int,
                1,
            ) && 0 <= crate::engine::shapes::obb::obb_face_s(face_idx as int, 1) < 8);
            assert(polyhedron@.faces[face_idx as int][2] == crate::engine::shapes::obb::obb_face_s(
                face_idx as int,
                2,
            ) && 0 <= crate::engine::shapes::obb::obb_face_s(face_idx as int, 2) < 8);
            assert(polyhedron@.faces[face_idx as int][3] == crate::engine::shapes::obb::obb_face_s(
                face_idx as int,
                3,
            ) && 0 <= crate::engine::shapes::obb::obb_face_s(face_idx as int, 3) < 8);
        }
        let v0 = polyhedron.transformed_vertex(polyhedron.faces[face_idx].v_i[0]);
        let v1 = polyhedron.transformed_vertex(polyhedron.faces[face_idx].v_i[1]);
        let v2 = polyhedron.transformed_vertex(polyhedron.faces[face_idx].v_i[2]);
        let v3 = polyhedron.transformed_vertex(polyhedron.faces[face_idx].v_i[3]);
        let midpoint = Vector3::zeros().vadd(&v0).vadd(&v1).vadd(&v2).vadd(&v3);
        let size = Fx(4 * SCALE);
        let mut p = Plane::new(polyhedron.face_normal(face_idx));
        p.set_position(Vector3::new(
            crate::fixed::fdiv(midpoint.x, size),
            crate::fixed::fdiv(midpoint.y, size),
            crate::fixed::fdiv(midpoint.z, size),
        ));
        p
    }

    /// Signed distance of `p`: positive in the normal's direction, negative
    /// opposite it, zero on the plane.
    pub fn signed_distance(&self, p: &Vector3) -> (r: Fx)
        ensures
            r@ == signed_distance_s(self@, p@),
    {
        let ap = p.vsub(&self.transform.position());
        dot(&self.normal, &ap)
    }

    /// Drop `p` along the normal onto the plane.
    pub fn reject_point_on_plane(&self, p: &Vector3) -> (r: Vector3)
        ensures
            r@ == reject_point_on_plane_s(self@, p@),
    {
        rejection(&self.normal, p).vadd(&projection(&self.normal, &self.get_position()))
    }

    pub fn get_position(&self) -> (r: Vector3)
        ensures
            r@ == self@.transform.translation,
    {
        self.transform.translation
    }

    pub fn get_orientation(&self) -> (r: Mat3)
        ensures
            r@ == self@.transform.rotation,
    {
        self.transform.rotation
    }

    pub fn get_transform(&self) -> (r: Transform)
        ensures
            r@ == self@.transform,
    {
        self.transform
    }

    /// Move the plane; the cached distance from the origin follows.
    pub fn set_position(&mut self, p: Vector3)
        ensures
            final(self)@ == plane_set_position_s(old(self)@, p@),
    {
        self.transform.translation = p;
        self.compute_distance_from_origin();
    }

    pub fn set_orientation(&mut self, o: Mat3)
        ensures
            final(self)@ == (PlaneV {
                normal: old(self)@.normal,
                distance_from_origin: old(self)@.distance_from_origin,
                transform: Tf {
                    rotation: o@,
                    translation: old(self)@.transform.translation,
                },
            }),
    {
        self.transform.rotation = o;
    }

    /// Replace the transform; the cached distance from the origin follows.
    pub fn set_transform(&mut self, t: Transform)
        ensures
            final(self)@ == plane_set_transform_s(old(self)@, t@),
    {
        self.transform = t;
        self.compute_distance_from_origin();
    }

    fn compute_distance_from_origin(&mut self)
        ensures
            final(self)@ == (PlaneV {
                normal: old(self)@.normal,
                distance_from_origin: vmag_s(old(self)@.transform.translation),
                transform: old(self)@.transform,
            }),
    {
        self.distance_from_origin = magnitude(&self.transform.translation);
    }
}

} // verus!
