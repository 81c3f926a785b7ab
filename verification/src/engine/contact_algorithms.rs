//! Contact generation: for each overlapping pair of shapes, the contact
//! points, the normal from the first shape toward the second, and the
//! penetration depth.

pub mod obb;
pub mod obb_plane;
pub mod obb_sphere;
pub mod plane;
pub mod plane_sphere;
pub mod sphere;

pub use obb::obb_obb;
pub use obb_plane::obb_plane;
pub use obb_sphere::obb_sphere;
pub use plane::plane_plane;
pub use plane_sphere::plane_sphere;
pub use sphere::sphere_sphere;

use crate::fixed::Fx;
use crate::math::vector::{Vector3, V3};
use vstd::prelude::*;

verus! {

/// Spec image of a contact: point views, normal view, penetration.
pub ghost struct CiS {
    pub points: Seq<V3>,
    pub normal_a_to_b: V3,
    pub penetration_distance: int,
}

/// A contact between two shapes: its points, the normal pointing from the
/// first shape toward the second, and the penetration depth.
pub struct ContactInformations {
    pub points: Vec<Vector3>,
    pub normal_a_to_b: Vector3,
    pub penetration_distance: Fx,
}

impl View for ContactInformations {
    type V = CiS;

    open spec fn view(&self) -> CiS {
        CiS {
            points: self.points@.map_values(|v: Vector3| v@),
            normal_a_to_b: self.normal_a_to_b@,
            penetration_distance: self.penetration_distance@,
        }
    }
}

/// A contact between two collision objects, named by their ids.
pub struct ContactManifold {
    pub id_collision_object_a: usize,
    pub id_collision_object_b: usize,
    pub contact_infos: ContactInformations,
}

} // verus!
