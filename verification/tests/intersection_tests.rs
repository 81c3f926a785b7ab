//! Tests of the overlap tests, the contact routines and the dispatch.

use angine::engine::contact_algorithms;
use angine::engine::intersection_algorithms::intersection_wrapper::compute_contact;
use angine::engine::intersection_algorithms::obb::obb_obb;
use angine::engine::intersection_algorithms::obb_plane::obb_plane;
use angine::engine::intersection_algorithms::obb_sphere::obb_sphere;
use angine::engine::intersection_algorithms::plane::plane_plane;
use angine::engine::intersection_algorithms::plane_sphere::plane_sphere;
use angine::engine::intersection_algorithms::sphere::sphere_sphere;
use angine::engine::shapes::{Plane, Shape, Sphere, OBB};
use angine::fixed::Fx;
use angine::math::helper;
use angine::math::transform::{Rotation, Transform};
use angine::math::vector::{dot, normalized, Directions, Vector3};

fn fx(x: f64) -> Fx {
    Fx((x * 1e9).round() as i64)
}

fn to_f(v: Fx) -> f64 {
    v.0 as f64 / 1e9
}

fn v3(x: f64, y: f64, z: f64) -> Vector3 {
    Vector3::new(fx(x), fx(y), fx(z))
}

fn sphere_at(radius: f64, pos: Vector3) -> Sphere {
    let mut s = Sphere::new(fx(radius));
    s.position = pos;
    s
}

#[test]
fn sphere_sphere_intersection() {
    {
        let s1 = Sphere::new(fx(1.0));
        let s2 = sphere_at(1.5, v3(1.0, 0.0, 0.0));
        assert_eq!(sphere_sphere(&s1, &s2), true);
    }
    // one sphere inside another does not intersect
    {
        let s1 = Sphere::new(fx(1.0));
        let s2 = sphere_at(2.0, v3(1.0, 0.0, 0.0));
        assert_eq!(sphere_sphere(&s1, &s2), false);
    }
    // apart
    {
        let s1 = Sphere::new(fx(1.0));
        let s2 = sphere_at(1.0, v3(3.0, 0.0, 0.0));
        assert_eq!(sphere_sphere(&s1, &s2), false);
    }
    // touching in exactly one point
    {
        let s1 = Sphere::new(fx(1.0));
        let s2 = sphere_at(1.0, v3(2.0, 0.0, 0.0));
        assert_eq!(sphere_sphere(&s1, &s2), true);
    }
}

#[test]
fn obb_sphere_obb_sphere_intersection() {
    // no intersection
    {
        let obb = OBB::new(v3(1.0, 1.0, 1.0));
        let sphere = sphere_at(1.0, v3(3.0, 0.0, 0.0));
        assert_eq!(obb_sphere(&obb, &sphere), false);
    }
    // intersection on the contour
    {
        let obb = OBB::new(v3(1.0, 1.0, 1.0));
        let sphere = sphere_at(1.0, v3(2.0, 0.0, 0.0));
        assert_eq!(obb_sphere(&obb, &sphere), true);
    }
    // intersection
    {
        let obb = OBB::new(v3(1.0, 1.0, 1.0));
        let sphere = sphere_at(1.0, v3(1.5, 0.0, 0.0));
        assert_eq!(obb_sphere(&obb, &sphere), true);
    }
    // rotated
    {
        let mut obb = OBB::new(v3(1.0, 1.0, 1.0));
        obb.transform = Transform::rotation(Rotation::Z(fx(std::f64::consts::FRAC_PI_4)));
        let sphere = sphere_at(1.0, v3(1.5, 0.0, 0.0));
        assert_eq!(obb_sphere(&obb, &sphere), true);
    }
}

#[test]
fn plane_sphere_intersection() {
    // no intersection
    {
        let s = sphere_at(1.0, v3(0.0, 2.0, 0.0));
        let pl = Plane::new(Directions::up());
        assert_eq!(plane_sphere(&pl, &s), false);
    }
    // intersection
    {
        let s = sphere_at(1.0, v3(0.0, 1.0, 0.0));
        let pl = Plane::new(Directions::up());
        assert_eq!(plane_sphere(&pl, &s), true);
    }
    {
        let s = sphere_at(1.0, v3(0.0, -1.0, 0.0));
        let pl = Plane::new(Directions::up());
        assert_eq!(plane_sphere(&pl, &s), true);
    }
    {
        let s = sphere_at(1.0, v3(0.0, 1.0, 0.0));
        let pl = Plane::new(v3(1.0, 1.0, 0.0));
        assert_eq!(plane_sphere(&pl, &s), true);
    }
}

#[test]
fn plane_plane_plane_intersection() {
    {
        let pl1 = Plane::new(Directions::up());
        let mut pl2 = Plane::new(Directions::up());

        assert_eq!(plane_plane(&pl1, &pl2), true);

        pl2.distance_from_origin = fx(1.0);
        assert_eq!(plane_plane(&pl1, &pl2), false);
    }
    {
        let pl1 = Plane::new(Directions::up());
        let mut pl2 = Plane::new(normalized(&v3(1.0, 1.0, 0.0)));
        pl2.set_position(v3(0.0, 1.0, 0.0));

        assert_eq!(plane_plane(&pl1, &pl2), true);
    }
    // anti-parallel normals at different distances: still parallel planes
    {
        let pl1 = Plane::new(Directions::up());
        let mut pl2 = Plane::new(Directions::up().vneg());
        pl2.set_position(v3(0.0, 5.0, 0.0));
        assert_eq!(plane_plane(&pl1, &pl2), false);

        let pl3 = Plane::new(Directions::up().vneg());
        assert_eq!(plane_plane(&pl1, &pl3), true);
    }
}

#[test]
fn obb_plane_intersection() {
    // no intersection
    {
        let mut obb = OBB::new(v3(1.0, 1.0, 1.0));
        obb.transform = Transform::translation(v3(0.0, 2.0, 0.0));
        let plane = Plane::new(Directions::up());
        assert_eq!(obb_plane(&obb, &plane), false);
    }
    // intersection
    {
        let obb = OBB::new(v3(1.0, 1.0, 1.0));
        let mut plane = Plane::new(Directions::up());
        plane.set_position(v3(0.0, -1.0, 0.0));
        assert_eq!(obb_plane(&obb, &plane), true);
    }
    // origin above, a point below the plane
    {
        let mut obb = OBB::new(v3(1.0, 1.0, 1.0));
        obb.transform = Transform::new(
            Vector3::ones(),
            Rotation::Z(fx(std::f64::consts::FRAC_PI_4)),
            v3(0.0, 1.0, 0.0),
        );
        let plane = Plane::new(Directions::up());
        assert_eq!(obb_plane(&obb, &plane), true);
    }
    // intersection on the contour
    {
        let mut obb = OBB::new(v3(1.0, 1.0, 1.0));
        obb.transform = Transform::translation(Directions::up());
        let plane = Plane::new(Directions::up());
        assert_eq!(obb_plane(&obb, &plane), true);
    }
    {
        let mut obb = OBB::new(v3(1.0, 1.0, 1.0));
        obb.transform = Transform::translation(v3(0.0, -1.0, 0.0));
        let plane = Plane::new(Directions::up());
        assert_eq!(obb_plane(&obb, &plane), true);
    }
}

#[test]
fn obb_obb_intersection() {
    // no intersection
    {
        let obb1 = OBB::new(v3(1.0, 1.0, 1.0));
        let mut obb2 = OBB::new(v3(1.0, 1.0, 1.0));
        obb2.transform = Transform::translation(Directions::right().scale(fx(3.0)));
        assert_eq!(obb_obb(&obb1, &obb2), false);
    }
    // intersection on the contour
    {
        let obb1 = OBB::new(v3(1.0, 1.0, 1.0));
        let mut obb2 = OBB::new(v3(1.0, 1.0, 1.0));
        obb2.transform = Transform::translation(Directions::right().scale(fx(2.0)));
        assert_eq!(obb_obb(&obb1, &obb2), true);
    }
    // big intersection
    {
        let obb1 = OBB::new(v3(1.0, 1.0, 1.0));
        let mut obb2 = OBB::new(v3(1.0, 1.0, 1.0));
        obb2.transform = Transform::translation(Directions::right());
        assert_eq!(obb_obb(&obb1, &obb2), true);
    }
    // oriented
    {
        let mut obb1 = OBB::new(v3(1.0, 1.0, 1.0));
        obb1.transform = Transform::rotation(Rotation::Z(fx(std::f64::consts::FRAC_PI_4)));
        let mut obb2 = OBB::new(v3(1.0, 1.0, 1.0));
        obb2.transform = Transform::translation(Directions::right());
        assert_eq!(obb_obb(&obb1, &obb2), true);
    }
    // an edge of A meets an edge of B without any vertex inside
    {
        let obb1 = OBB::new(v3(0.5, 0.5, 0.5));
        let mut obb2 = OBB::new(v3(0.5, 0.5, 0.5));
        obb2.transform = Transform::new(
            Vector3::ones(),
            Rotation::composed(
                helper::angle_2_rad(fx(30.0)),
                helper::angle_2_rad(fx(-35.0)),
                helper::angle_2_rad(fx(-45.0)),
            ),
            v3(1.0, 0.9, 0.0),
        );
        assert_eq!(obb_obb(&obb1, &obb2), true);
        assert_eq!(obb_obb(&obb2, &obb1), true);
    }
    {
        let obb1 = OBB::new(v3(0.5, 0.5, 0.5));
        let mut obb2 = OBB::new(v3(0.5, 0.5, 0.5));
        obb2.transform = Transform::new(
            Vector3::ones(),
            Rotation::composed(
                helper::angle_2_rad(fx(-30.0)),
                helper::angle_2_rad(fx(35.0)),
                helper::angle_2_rad(fx(45.0)),
            ),
            v3(1.0, 0.9, 0.0),
        );
        assert_eq!(obb_obb(&obb1, &obb2), true);
        assert_eq!(obb_obb(&obb2, &obb1), true);
    }
}

#[test]
fn sphere_sphere_point_intersection() {
    let s1 = Sphere::new(fx(2.0));
    let s2 = sphere_at(1.5, v3(3.0, 0.0, 0.0));

    let cm = contact_algorithms::sphere_sphere(&s1, &s2);

    assert_eq!(cm.penetration_distance, fx(0.25));
    assert_eq!(cm.points[0].x(), fx(1.75));
    assert_eq!(cm.normal_a_to_b.x(), fx(1.0));
}

#[test]
fn new_obb_plane_test() {
    {
        let mut obb = OBB::new(Vector3::value(fx(1.0)));
        obb.transform = Transform::translation(v3(0.0, 0.5, 0.0));
        let plane = Plane::new(Directions::up());

        let r = contact_algorithms::obb_plane(&obb, &plane);

        // four corners below the plane
        assert_eq!(r.points.len(), 4);
        // the normal points from the box toward the plane
        assert!(
            to_f(dot(
                &r.normal_a_to_b,
                &plane.get_position().vsub(&obb.transform.position()),
            )) > 0.0
        );
        assert_eq!(r.penetration_distance, fx(0.5));
    }
    {
        let mut obb = OBB::new(Vector3::value(fx(1.0)));
        obb.transform = Transform::new(
            Vector3::ones(),
            Rotation::Z(helper::angle_2_rad(fx(35.0))),
            v3(0.0, 0.5, 0.0),
        );
        let plane = Plane::new(Directions::up());

        let r = contact_algorithms::obb_plane(&obb, &plane);

        // no duplicate points
        for i in 0..r.points.len() {
            for j in i + 1..r.points.len() {
                assert_ne!(r.points[i], r.points[j]);
            }
        }
        // the normal points from the box toward the plane
        assert!(
            to_f(dot(
                &r.normal_a_to_b,
                &plane.get_position().vsub(&obb.transform.position()),
            )) > 0.0
        );
    }
    {
        // from a recorded run
        let rotation = angine::math::matrix::Mat3::from_array([
            [fx(0.99999994), fx(0.0), fx(0.00034526698)],
            [fx(0.00034526698), fx(0.0), fx(-0.9999999)],
            [fx(0.0), fx(1.0), fx(0.0)],
        ]);
        let mut obb = OBB::new(Vector3::value(fx(1.0)));
        obb.transform = Transform { rotation, translation: v3(0.0, -9.049723, 0.0) };

        let mut plane = Plane::new(Directions::up());
        plane.set_position(v3(0.0, -10.0, 0.0));

        let r = contact_algorithms::obb_plane(&obb, &plane);

        // no duplicate points
        for i in 0..r.points.len() {
            for j in i + 1..r.points.len() {
                assert_ne!(r.points[i], r.points[j]);
            }
        }
        assert!(
            to_f(dot(
                &r.normal_a_to_b,
                &plane.get_position().vsub(&obb.transform.position()),
            )) > 0.0
        );
    }
}

#[test]
fn sphere_sphere_touching_at_exact_distance_overlaps() {
    // centers exactly r1 + r2 apart: a single-point contact
    let s1 = Sphere::new(fx(1.0));
    let s2 = sphere_at(1.0, v3(2.0, 0.0, 0.0));
    assert!(sphere_sphere(&s1, &s2));
    let cm = contact_algorithms::sphere_sphere(&s1, &s2);
    assert_eq!(cm.penetration_distance, fx(0.0));
    assert_eq!(cm.points.len(), 1);
    assert_eq!(cm.points[0], v3(1.0, 0.0, 0.0));
}

#[test]
fn obb_plane_touching_at_vertex_has_zero_penetration() {
    // a box turned 45 degrees about Z, placed so that its lowest corners
    // rest exactly on the plane
    let s = Fx(707_106_781);
    let rotation = angine::math::matrix::Mat3::from_array([
        [s, Fx(-707_106_781), fx(0.0)],
        [s, s, fx(0.0)],
        [fx(0.0), fx(0.0), fx(1.0)],
    ]);
    let mut obb = OBB::new(Vector3::value(fx(1.0)));
    obb.transform = Transform {
        rotation,
        translation: Vector3::new(fx(0.0), Fx(2 * 707_106_781), fx(0.0)),
    };
    let plane = Plane::new(Directions::up());
    assert!(obb_plane(&obb, &plane));
    let r = contact_algorithms::obb_plane(&obb, &plane);
    assert_eq!(r.penetration_distance, fx(0.0));
}

#[test]
fn dispatch_flips_normal_between_orders() {
    // sphere and plane through the dispatch, in both orders
    let sphere = Shape::Sphere(sphere_at(1.0, v3(0.0, 0.5, 0.0)));
    let plane = Shape::Plane(Plane::new(Directions::up()));

    let ab = compute_contact(&sphere, &plane).unwrap();
    let ba = compute_contact(&plane, &sphere).unwrap();

    assert_eq!(ab.points.len(), ba.points.len());
    assert_eq!(ab.points[0], ba.points[0]);
    assert_eq!(ab.penetration_distance, ba.penetration_distance);
    assert_eq!(ab.normal_a_to_b, ba.normal_a_to_b.vneg());

    // box and sphere through the dispatch, in both orders
    let obb = Shape::OBB(OBB::new(v3(1.0, 1.0, 1.0)));
    let sphere2 = Shape::Sphere(sphere_at(1.0, v3(1.5, 0.0, 0.0)));

    let ab = compute_contact(&obb, &sphere2).unwrap();
    let ba = compute_contact(&sphere2, &obb).unwrap();
    assert_eq!(ab.points[0], ba.points[0]);
    assert_eq!(ab.penetration_distance, ba.penetration_distance);
    assert_eq!(ab.normal_a_to_b, ba.normal_a_to_b.vneg());
}

#[test]
fn obb_plane_symmetry() {
    // a unit box half sunk into the plane through the origin
    let obb = {
        let mut o = OBB::new(Vector3::value(fx(1.0)));
        o.transform = Transform::translation(v3(0.0, 0.5, 0.0));
        Shape::OBB(o)
    };
    let plane = Shape::Plane(Plane::new(Directions::up()));

    let ab = compute_contact(&obb, &plane).unwrap();
    let ba = compute_contact(&plane, &obb).unwrap();

    assert_eq!(ab.normal_a_to_b, v3(0.0, -1.0, 0.0));
    assert_eq!(ba.normal_a_to_b, v3(0.0, 1.0, 0.0));
    assert_eq!(ab.penetration_distance, fx(0.5));
    assert_eq!(ba.penetration_distance, fx(0.5));
    assert_eq!(ab.points.len(), 4);
    assert_eq!(ab.points.len(), ba.points.len());
    for k in 0..4 {
        assert_eq!(ab.points[k], ba.points[k]);
        // sunken corners lifted halfway back toward the plane
        assert_eq!(ab.points[k].y(), fx(-0.25));
    }
}

#[test]
fn plane_sphere_penetration_is_absolute() {
    // a sphere whose center lies below the plane still reports a
    // non-negative penetration, and the normal follows it down
    let plane = Plane::new(Directions::up());
    let s = sphere_at(1.0, v3(0.0, -0.5, 0.0));
    let cm = contact_algorithms::plane_sphere(&plane, &s);
    assert_eq!(cm.penetration_distance, fx(0.5));
    assert_eq!(cm.points[0], v3(0.0, 0.0, 0.0));
    assert_eq!(cm.normal_a_to_b, v3(0.0, -1.0, 0.0));
}

#[test]
fn contact_normal_points_toward_the_second_body() {
    // sphere above the plane: the normal is the plane's own
    let plane = Plane::new(Directions::up());
    let above = sphere_at(1.0, v3(0.0, 0.5, 0.0));
    assert_eq!(
        contact_algorithms::plane_sphere(&plane, &above).normal_a_to_b,
        v3(0.0, 1.0, 0.0),
    );

    // box sunk through from below: the normal flips up toward the plane
    let mut low = OBB::new(Vector3::value(fx(1.0)));
    low.transform = Transform::translation(v3(0.0, -0.5, 0.0));
    let r = contact_algorithms::obb_plane(&low, &plane);
    assert_eq!(r.normal_a_to_b, v3(0.0, 1.0, 0.0));
    assert!(to_f(dot(&r.normal_a_to_b, &plane.get_position().vsub(&low.transform.position()))) >= 0.0);

    // two overlapping boxes: the normal carries the first toward the second
    let b1 = OBB::new(Vector3::value(fx(1.0)));
    let mut b2 = OBB::new(Vector3::value(fx(1.0)));
    b2.transform = Transform::translation(v3(1.5, 0.0, 0.0));
    let bb = contact_algorithms::obb_obb(&b1, &b2);
    assert!(
        to_f(dot(
            &bb.normal_a_to_b,
            &b2.transform.position().vsub(&b1.transform.position()),
        )) >= 0.0
    );
}

#[test]
fn one_sphere_strictly_inside_another_gives_no_contact() {
    let s1 = Shape::Sphere(Sphere::new(fx(1.0)));
    let s2 = Shape::Sphere(sphere_at(2.0, v3(1.0, 0.0, 0.0)));
    assert!(compute_contact(&s1, &s2).is_none());
}
