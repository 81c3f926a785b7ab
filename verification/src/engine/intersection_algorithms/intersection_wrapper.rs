//! The dispatch table: a symmetric map from a pair of shape kinds to the
//! overlap test plus contact routine of that pair.  When a cell forwards to
//! a routine that takes its arguments in the other order, the returned
//! normal is flipped so that it always points from the first argument
//! toward the second.

use crate::engine::contact_algorithms;
use crate::engine::contact_algorithms::{CiS, ContactInformations};
use crate::engine::shapes::obb::{obb_wf, ObbV, OBB};
use crate::engine::shapes::plane::{Plane, PlaneV};
use crate::engine::shapes::{Shape, Sphere};
use crate::fixed::{mag_s, sneg, MAX_RAW};
use crate::math::vector::{vneg_s, Vector3, V3};
use vstd::prelude::*;

verus! {

/// Flip a normal so that it points from the caller's first argument to the
/// second.
pub fn swap_normal_orientation(normal: &mut Vector3)
    ensures
        final(normal)@ == vneg_s(old(normal)@),
{
    *normal = normal.vneg();
}

/// A contact with its normal flipped.
pub open spec fn flip_ci_s(ci: CiS) -> CiS {
    CiS {
        points: ci.points,
        normal_a_to_b: vneg_s(ci.normal_a_to_b),
        penetration_distance: ci.penetration_distance,
    }
}

pub open spec fn cell_sphere_sphere_s(s1: &Sphere, s2: &Sphere) -> Option<CiS> {
    if super::sphere::sphere_sphere_s(s1.radius@, s1.position@, s2.radius@, s2.position@) {
        Option::Some(
            contact_algorithms::sphere::sphere_sphere_contact_s(
                s1.radius@,
                s1.position@,
                s2.radius@,
                s2.position@,
            ),
        )
    } else {
        Option::None
    }
}

pub open spec fn cell_obb_sphere_s(o: &OBB, s: &Sphere) -> Option<CiS> {
    if super::obb_sphere::obb_sphere_s(o@, s.radius@, s.position@) {
        Option::Some(
            contact_algorithms::obb_sphere::obb_sphere_contact_s(o@, s.radius@, s.position@),
        )
    } else {
        Option::None
    }
}

pub open spec fn cell_sphere_obb_s(s: &Sphere, o: &OBB) -> Option<CiS> {
    match cell_obb_sphere_s(o, s) {
        Option::Some(ci) => Option::Some(flip_ci_s(ci)),
        Option::None => Option::None,
    }
}

pub open spec fn cell_plane_sphere_s(p: &Plane, s: &Sphere) -> Option<CiS> {
    if super::plane_sphere::plane_sphere_s(p@, s.radius@, s.position@) {
        Option::Some(
            contact_algorithms::plane_sphere::plane_sphere_contact_s(p@, s.position@),
        )
    } else {
        Option::None
    }
}

pub open spec fn cell_sphere_plane_s(s: &Sphere, p: &Plane) -> Option<CiS> {
    match cell_plane_sphere_s(p, s) {
        Option::Some(ci) => Option::Some(flip_ci_s(ci)),
        Option::None => Option::None,
    }
}

pub open spec fn cell_obb_plane_s(o: &OBB, p: &Plane) -> Option<CiS> {
    if super::obb_plane::obb_plane_s(o@, p@) {
        Option::Some(contact_algorithms::obb_plane::obb_plane_contact_s(o@, p@))
    } else {
        Option::None
    }
}

pub open spec fn cell_plane_obb_s(p: &Plane, o: &OBB) -> Option<CiS> {
    match cell_obb_plane_s(o, p) {
        Option::Some(ci) => Option::Some(flip_ci_s(ci)),
        Option::None => Option::None,
    }
}

pub open spec fn cell_plane_plane_s(p1: &Plane, p2: &Plane) -> Option<CiS> {
    if super::plane::plane_plane_s(p1@, p2@) {
        Option::Some(contact_algorithms::plane::plane_plane_contact_s(p2@.normal))
    } else {
        Option::None
    }
}

pub open spec fn cell_obb_obb_s(o1: &OBB, o2: &OBB) -> Option<CiS> {
    match crate::geometry::sat::sat_3d_s(o1@, o2@) {
        Option::Some(res) => Option::Some(
            contact_algorithms::obb::obb_obb_contact_s(o1@, o2@, res.0, res.1, res.2),
        ),
        Option::None => Option::None,
    }
}

/// The full dispatch: which overlap plus contact routine each ordered pair
/// of shapes uses, with the normal flipped where the routine takes the
/// arguments reversed.
#[verifier::opaque]
pub open spec fn dispatch_s(s1: &Shape, s2: &Shape) -> Option<CiS> {
    match (s1, s2) {
        (Shape::Sphere(a), Shape::Sphere(b)) => cell_sphere_sphere_s(a, b),
        (Shape::Sphere(a), Shape::OBB(b)) => cell_sphere_obb_s(a, b),
        (Shape::Sphere(a), Shape::Plane(b)) => cell_sphere_plane_s(a, b),
        (Shape::OBB(a), Shape::Sphere(b)) => cell_obb_sphere_s(a, b),
        (Shape::OBB(a), Shape::OBB(b)) => cell_obb_obb_s(a, b),
        (Shape::OBB(a), Shape::Plane(b)) => cell_obb_plane_s(a, b),
        (Shape::Plane(a), Shape::Sphere(b)) => cell_plane_sphere_s(a, b),
        (Shape::Plane(a), Shape::OBB(b)) => cell_plane_obb_s(a, b),
        (Shape::Plane(a), Shape::Plane(b)) => cell_plane_plane_s(a, b),
    }
}

/// A box carried by a shape has well-formed topology tables.
pub open spec fn shape_wf(s: &Shape) -> bool {
    match s {
        Shape::OBB(o) => obb_wf(o@),
        _ => true,
    }
}

pub fn compute_sphere_sphere(s1: &Sphere, s2: &Sphere) -> (r: Option<ContactInformations>)
    ensures
        (match r {
            Option::Some(ci) => cell_sphere_sphere_s(s1, s2) == Option::Some(ci@),
            Option::None => cell_sphere_sphere_s(s1, s2) is None,
        }),
{
    if super::sphere::sphere_sphere(s1, s2) {
        Some(contact_algorithms::sphere_sphere(s1, s2))
    } else {
        None
    }
}

pub fn compute_obb_obb(o1: &OBB, o2: &OBB) -> (r: Option<ContactInformations>)
    requires
        obb_wf(o1@),
        obb_wf(o2@),
    ensures
        (match r {
            Option::Some(ci) => cell_obb_obb_s(o1, o2) == Option::Some(ci@),
            Option::None => cell_obb_obb_s(o1, o2) is None,
        }),
{
    if super::obb::obb_obb(o1, o2) {
        Some(contact_algorithms::obb_obb(o1, o2))
    } else {
        None
    }
}

pub fn compute_obb_sphere(o1: &OBB, o2: &Sphere) -> (r: Option<ContactInformations>)
    ensures
        (match r {
            Option::Some(ci) => cell_obb_sphere_s(o1, o2) == Option::Some(ci@),
            Option::None => cell_obb_sphere_s(o1, o2) is None,
        }),
{
    if super::obb_sphere::obb_sphere(o1, o2) {
        Some(contact_algorithms::obb_sphere(o1, o2))
    } else {
        None
    }
}

pub fn compute_sphere_obb(o1: &Sphere, o2: &OBB) -> (r: Option<ContactInformations>)
    ensures
        (match r {
            Option::Some(ci) => cell_sphere_obb_s(o1, o2) == Option::Some(ci@),
            Option::None => cell_sphere_obb_s(o1, o2) is None,
        }),
{
    if super::obb_sphere::obb_sphere(o2, o1) {
        let mut ci = contact_algorithms::obb_sphere(o2, o1);
        swap_normal_orientation(&mut ci.normal_a_to_b);
        Some(ci)
    } else {
        None
    }
}

pub fn compute_obb_plane(o1: &OBB, o2: &Plane) -> (r: Option<ContactInformations>)
    requires
        obb_wf(o1@),
    ensures
        (match r {
            Option::Some(ci) => cell_obb_plane_s(o1, o2) == Option::Some(ci@),
            Option::None => cell_obb_plane_s(o1, o2) is None,
        }),
{
    if super::obb_plane::obb_plane(o1, o2) {
        Some(contact_algorithms::obb_plane(o1, o2))
    } else {
        None
    }
}

pub fn compute_plane_obb(o1: &Plane, o2: &OBB) -> (r: Option<ContactInformations>)
    requires
        obb_wf(o2@),
    ensures
        (match r {
            Option::Some(ci) => cell_plane_obb_s(o1, o2) == Option::Some(ci@),
            Option::None => cell_plane_obb_s(o1, o2) is None,
        }),
{
    if super::obb_plane::obb_plane(o2, o1) {
        let mut ci = contact_algorithms::obb_plane(o2, o1);
        swap_normal_orientation(&mut ci.normal_a_to_b);
        Some(ci)
    } else {
        None
    }
}

pub fn compute_plane_sphere(o1: &Plane, o2: &Sphere) -> (r: Option<ContactInformations>)
    ensures
        (match r {
            Option::Some(ci) => cell_plane_sphere_s(o1, o2) == Option::Some(ci@),
            Option::None => cell_plane_sphere_s(o1, o2) is None,
        }),
{
    if super::plane_sphere::plane_sphere(o1, o2) {
        Some(contact_algorithms::plane_sphere(o1, o2))
    } else {
        None
    }
}

pub fn compute_sphere_plane(o1: &Sphere, o2: &Plane) -> (r: Option<ContactInformations>)
    ensures
        (match r {
            Option::Some(ci) => cell_sphere_plane_s(o1, o2) == Option::Some(ci@),
            Option::None => cell_sphere_plane_s(o1, o2) is None,
        }),
{
    if super::plane_sphere::plane_sphere(o2, o1) {
        let mut ci = contact_algorithms::plane_sphere(o2, o1);
        swap_normal_orientation(&mut ci.normal_a_to_b);
        Some(ci)
    } else {
        None
    }
}

pub fn compute_plane_plane(o1: &Plane, o2: &Plane) -> (r: Option<ContactInformations>)
    ensures
        (match r {
            Option::Some(ci) => cell_plane_plane_s(o1, o2) == Option::Some(ci@),
            Option::None => cell_plane_plane_s(o1, o2) is None,
        }),
{
    if super::plane::plane_plane(o1, o2) {
        Some(contact_algorithms::plane_plane(o1, o2))
    } else {
        None
    }
}

/// Dispatch the overlap test and contact generation of an ordered pair of
/// shapes; the returned normal points from `s1` toward `s2`.
pub fn compute_contact(s1: &Shape, s2: &Shape) -> (r: Option<ContactInformations>)
    requires
        shape_wf(s1),
        shape_wf(s2),
    ensures
        (match r {
            Option::Some(ci) => dispatch_s(s1, s2) == Option::Some(ci@),
            Option::None => dispatch_s(s1, s2) is None,
        }),
{
    proof {
        reveal(dispatch_s);
    }
    match (s1, s2) {
        (Shape::Sphere(a), Shape::Sphere(b)) => compute_sphere_sphere(a, b),
        (Shape::Sphere(a), Shape::OBB(b)) => compute_sphere_obb(a, b),
        (Shape::Sphere(a), Shape::Plane(b)) => compute_sphere_plane(a, b),
        (Shape::OBB(a), Shape::Sphere(b)) => compute_obb_sphere(a, b),
        (Shape::OBB(a), Shape::OBB(b)) => compute_obb_obb(a, b),
        (Shape::OBB(a), Shape::Plane(b)) => compute_obb_plane(a, b),
        (Shape::Plane(a), Shape::Sphere(b)) => compute_plane_sphere(a, b),
        (Shape::Plane(a), Shape::OBB(b)) => compute_plane_obb(a, b),
        (Shape::Plane(a), Shape::Plane(b)) => compute_plane_plane(a, b),
    }
}

/// The two shapes are of different kinds.
pub open spec fn shape_kind_differs(s1: &Shape, s2: &Shape) -> bool {
    &&& !(s1 is Sphere && s2 is Sphere)
    &&& !(s1 is OBB && s2 is OBB)
    &&& !(s1 is Plane && s2 is Plane)
}

/// Every coordinate within the representable range.
pub open spec fn v3_in_range(v: V3) -> bool {
    &&& mag_s(v.x) <= MAX_RAW as int
    &&& mag_s(v.y) <= MAX_RAW as int
    &&& mag_s(v.z) <= MAX_RAW as int
}

/// Flipping a representable vector twice gives it back.
proof fn lemma_vneg_involutive(v: V3)
    requires
        v3_in_range(v),
    ensures
        vneg_s(vneg_s(v)) == v,
{
}

/// Dispatching a pair of shapes of two different kinds in either order
/// yields the same answer: the same points and penetration, with the
/// normal flipped.  (A plane's stored normal must be representable, which
/// every constructor guarantees.)
pub proof fn lemma_dispatch_symmetry(s1: &Shape, s2: &Shape)
    requires
        shape_kind_differs(s1, s2),
        (match s1 {
            Shape::Plane(p) => v3_in_range(p@.normal),
            _ => true,
        }),
        (match s2 {
            Shape::Plane(p) => v3_in_range(p@.normal),
            _ => true,
        }),
    ensures
        (match (dispatch_s(s1, s2), dispatch_s(s2, s1)) {
            (Option::Some(a), Option::Some(b)) => {
                &&& a.points == b.points
                &&& a.penetration_distance == b.penetration_distance
                &&& a.normal_a_to_b == vneg_s(b.normal_a_to_b)
                &&& b.normal_a_to_b == vneg_s(a.normal_a_to_b)
            },
            (Option::None, Option::None) => true,
            _ => false,
        }),
{
    reveal(dispatch_s);
    match (s1, s2) {
        (Shape::Sphere(a), Shape::OBB(b)) => {
            lemma_cell_normal_in_range_obb_sphere(b, a);
        },
        (Shape::OBB(a), Shape::Sphere(b)) => {
            lemma_cell_normal_in_range_obb_sphere(a, b);
        },
        (Shape::Sphere(a), Shape::Plane(b)) => {
            lemma_vneg_involutive(b@.normal);
        },
        (Shape::Plane(a), Shape::Sphere(b)) => {
            lemma_vneg_involutive(a@.normal);
        },
        (Shape::OBB(a), Shape::Plane(b)) => {
            lemma_vneg_involutive(b@.normal);
        },
        (Shape::Plane(a), Shape::OBB(b)) => {
            lemma_vneg_involutive(a@.normal);
        },
        _ => {},
    }
}

/// Swapping the operands of a coordinate-wise difference flips every
/// coordinate exactly (truncation toward zero is odd).
proof fn lemma_vsub_antisym(a: V3, b: V3)
    ensures
        crate::math::vector::vsub_s(a, b).x == -crate::math::vector::vsub_s(b, a).x,
        crate::math::vector::vsub_s(a, b).y == -crate::math::vector::vsub_s(b, a).y,
        crate::math::vector::vsub_s(a, b).z == -crate::math::vector::vsub_s(b, a).z,
{
    crate::fixed::lemma_clip_neg(b.x - a.x);
    crate::fixed::lemma_clip_neg(b.y - a.y);
    crate::fixed::lemma_clip_neg(b.z - a.z);
}

/// Negating the dividend of a saturating fixed-point division negates the
/// quotient exactly.
proof fn lemma_sdiv_neg(p: int, m: int)
    ensures
        crate::fixed::sdiv(-p, m) == -crate::fixed::sdiv(p, m),
{
    assert((-p) * (crate::fixed::SCALE as int) == -(p * (crate::fixed::SCALE as int)))
        by (nonlinear_arith);
    crate::fixed::lemma_qdiv_neg(p * (crate::fixed::SCALE as int), m);
    crate::fixed::lemma_clip_neg(crate::fixed::qdiv_s(p * (crate::fixed::SCALE as int), m));
}

/// Dispatching a pair of spheres in either order yields the same answer
/// with the normal exactly flipped and the same penetration; the single
/// contact points agree in exact arithmetic but may differ in the last
/// fixed-point digit, so only their number is stated here.
pub proof fn lemma_dispatch_symmetry_spheres(s1: &Shape, s2: &Shape)
    requires
        s1 is Sphere,
        s2 is Sphere,
    ensures
        (match (dispatch_s(s1, s2), dispatch_s(s2, s1)) {
            (Option::Some(a), Option::Some(b)) => {
                &&& a.penetration_distance == b.penetration_distance
                &&& a.normal_a_to_b == vneg_s(b.normal_a_to_b)
                &&& b.normal_a_to_b == vneg_s(a.normal_a_to_b)
                &&& a.points.len() == b.points.len()
            },
            (Option::None, Option::None) => true,
            _ => false,
        }),
{
    reveal(dispatch_s);
    let a = s1->Sphere_0;
    let b = s2->Sphere_0;
    let dab = crate::math::vector::vsub_s(b.position@, a.position@);
    let dba = crate::math::vector::vsub_s(a.position@, b.position@);
    lemma_vsub_antisym(b.position@, a.position@);
    assert(dba.x == -dab.x && dba.y == -dab.y && dba.z == -dab.z);
    assert((-dab.x) * (-dab.x) == dab.x * dab.x) by (nonlinear_arith);
    assert((-dab.y) * (-dab.y) == dab.y * dab.y) by (nonlinear_arith);
    assert((-dab.z) * (-dab.z) == dab.z * dab.z) by (nonlinear_arith);
    assert(crate::math::vector::sqmag_s(dba) == crate::math::vector::sqmag_s(dab));
    let m = crate::math::vector::vmag_s(dab);
    assert(crate::math::vector::vmag_s(dba) == m);
    lemma_sdiv_neg(dab.x, m);
    lemma_sdiv_neg(dab.y, m);
    lemma_sdiv_neg(dab.z, m);
    let nab = crate::math::vector::vdivs_s(dab, m);
    let nba = crate::math::vector::vdivs_s(dba, m);
    assert(nba.x == -nab.x && nba.y == -nab.y && nba.z == -nab.z);
    crate::fixed::lemma_clip_neg(nab.x);
    crate::fixed::lemma_clip_neg(nab.y);
    crate::fixed::lemma_clip_neg(nab.z);
    assert(vneg_s(nba) == nab);
    assert(vneg_s(nab) == nba);
    crate::fixed::lemma_clip_neg(crate::fixed::ssub(a.radius@, b.radius@));
    assert(crate::fixed::sabs(crate::fixed::ssub(b.radius@, a.radius@)) == crate::fixed::sabs(
        crate::fixed::ssub(a.radius@, b.radius@),
    )) by {
        crate::fixed::lemma_clip_neg(b.radius@ - a.radius@);
    }
}

/// The normal of a box-sphere contact is built from saturating divisions,
/// so it is representable.
proof fn lemma_cell_normal_in_range_obb_sphere(o: &OBB, s: &Sphere)
    ensures
        (match cell_obb_sphere_s(o, s) {
            Option::Some(ci) => v3_in_range(ci.normal_a_to_b),
            Option::None => true,
        }),
{
}

} // verus!
