//! Mathematical kernel: scalars, 3-vectors, 3x3 matrices, quaternions and
//! rigid transforms.

pub mod helper;
pub mod matrix;
pub mod quaternion;
pub mod rotation_matrix;
pub mod transform;
pub mod trig;
pub mod vector;

pub use matrix::Mat3;
pub use quaternion::Quaternion;
pub use rotation_matrix::RotationMatrix;
pub use transform::Rotation;
pub use transform::Transform;
pub use vector::Directions;
pub use vector::Vector3;

use vstd::prelude::*;

verus! {

/// The scalar type every quantity of the engine is carried in.
pub type Real = crate::fixed::Fx;

/// A 3-vector of reals.
pub type Vec3 = vector::Vector3;

/// A point in space; same representation as a vector.
pub type P3 = vector::Vector3;

} // verus!
