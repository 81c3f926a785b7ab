//! The sphere shape.

use crate::fixed::{fmul, smul, Fx, SCALE};
use crate::math::matrix::{mdiag_s, Mat3, M3};
use crate::math::vector::{
    magnitude, normalized, normalized_s, vadd_s, vmag_s, vscale_s, vsub_s, Vector3, V3,
};
use vstd::prelude::*;

verus! {

/// A sphere: a positive radius around a world position.
pub struct Sphere {
    pub radius: Fx,
    pub position: Vector3,
}

/// The point of the sphere's surface closest to `p` (for `p` at the center,
/// where the direction has no magnitude, the center itself).
pub open spec fn sphere_closest_point_s(radius: int, position: V3, p: V3) -> V3 {
    vadd_s(position, vscale_s(normalized_s(vsub_s(p, position)), radius))
}

/// Diagonal inertia matrix `(2/5) m r^2 I` of a solid sphere.
pub open spec fn sphere_inertia_s(radius: int, mass: int) -> M3 {
    let d = smul(smul(400_000_000, mass), smul(radius, radius));
    mdiag_s(V3 { x: d, y: d, z: d })
}

impl Sphere {
    /// A sphere of the given radius at the origin.
    pub fn new(radius: Fx) -> (r: Sphere)
        ensures
            r.radius == radius,
            r.position@ == (V3 { x: 0, y: 0, z: 0 }),
    {
        Sphere { radius, position: Vector3::origin() }
    }

    /// The point of the surface closest to `p`.
    pub fn closest_point(&self, p: &Vector3) -> (r: Vector3)
        ensures
            r@ == sphere_closest_point_s(self.radius@, self.position@, p@),
    {
        let mut d = p.vsub(&self.position);
        crate::math::vector::normalize(&mut d);
        self.position.vadd(&d.scale(self.radius))
    }

    /// Inertia matrix of the solid sphere for the given mass.
    pub fn compute_inertia_matrix(&self, mass: Fx) -> (r: Mat3)
        ensures
            r@ == sphere_inertia_s(self.radius@, mass@),
    {
        let d = fmul(fmul(Fx(400_000_000), mass), fmul(self.radius, self.radius));
        Mat3::diag(Vector3::value(d))
    }
}

} // verus!
