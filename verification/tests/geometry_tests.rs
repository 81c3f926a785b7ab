//! Tests of the geometric helpers and the separating-axis method.

use angine::engine::shapes::OBB;
use angine::fixed::Fx;
use angine::geometry::helper::clip;
use angine::geometry::sat::{overlapping_or_touching, project, sat_2D, sat_3D, Projection};
use angine::math::helper;
use angine::math::transform::{Rotation, Transform};
use angine::math::vector::{dot, Directions, Vector3};

fn fx(x: f64) -> Fx {
    Fx((x * 1e9).round() as i64)
}

fn to_f(v: Fx) -> f64 {
    v.0 as f64 / 1e9
}

fn v3(x: f64, y: f64, z: f64) -> Vector3 {
    Vector3::new(fx(x), fx(y), fx(z))
}

#[test]
fn test_clip() {
    {
        let mut v = vec![v3(1.0, 2.0, 3.0), v3(-1.0, -2.0, -3.0), v3(1.0, 0.0, 3.0)];
        clip(&mut v, Directions::up(), &Vector3::origin());

        assert_eq!(v[0].x(), fx(1.0));
        assert_eq!(v[0].y(), fx(0.0));
        assert_eq!(v[0].z(), fx(3.0));

        assert_eq!(v[1].x(), fx(-1.0));
        assert_eq!(v[1].y(), fx(-2.0));
        assert_eq!(v[1].z(), fx(-3.0));

        assert_eq!(v[2].x(), fx(1.0));
        assert_eq!(v[2].y(), fx(0.0));
        assert_eq!(v[2].z(), fx(3.0));
    }
    {
        let mut v = vec![v3(1.0, 2.0, 3.0), v3(-1.0, -2.0, -3.0), v3(1.0, 0.0, 3.0)];
        clip(&mut v, Directions::right(), &Vector3::origin());

        assert_eq!(v[0].x(), fx(0.0));
        assert_eq!(v[0].y(), fx(2.0));
        assert_eq!(v[0].z(), fx(3.0));

        assert_eq!(v[1].x(), fx(-1.0));
        assert_eq!(v[1].y(), fx(-2.0));
        assert_eq!(v[1].z(), fx(-3.0));

        assert_eq!(v[2].x(), fx(0.0));
        assert_eq!(v[2].y(), fx(0.0));
        assert_eq!(v[2].z(), fx(3.0));
    }
    {
        let mut v = vec![v3(1.0, 2.0, 3.0), v3(-1.0, -2.0, -3.0), v3(1.0, 0.0, 3.0)];
        let normal = Rotation::Z(helper::angle_2_rad(fx(45.0))).mul_vec(&Directions::right());

        clip(&mut v, normal, &Vector3::origin());

        assert!(to_f(dot(&v[0], &normal)).abs() < 1.0e-6);
        assert!((to_f(v[1].x()) + 1.0).abs() < 1.0e-6);
        assert!((to_f(v[1].y()) + 2.0).abs() < 1.0e-6);
        assert!((to_f(v[1].z()) + 3.0).abs() < 1.0e-6);
        assert!(to_f(dot(&v[2], &normal)).abs() < 1.0e-6);
    }
}

#[test]
fn clip_measures_from_the_face_point() {
    // the clipping plane passes through (0, 1, 0): only vertices above it
    // are pulled back onto it
    let mut v = vec![v3(0.0, 2.0, 0.0), v3(0.0, 0.5, 0.0), v3(3.0, -2.0, 1.0)];
    clip(&mut v, Directions::up(), &v3(0.0, 1.0, 0.0));

    assert_eq!(v[0], v3(0.0, 1.0, 0.0));
    assert_eq!(v[1], v3(0.0, 0.5, 0.0));
    assert_eq!(v[2], v3(3.0, -2.0, 1.0));
}

#[test]
fn sat_test_overlapping_or_touching() {
    {
        let p1 = Projection { min: fx(1.0), max: fx(3.0) };
        let p2 = Projection { min: fx(2.5), max: fx(4.0) };
        assert_eq!(overlapping_or_touching(&p1, &p2), Some(fx(0.5)));
    }
    {
        let p1 = Projection { min: fx(1.0), max: fx(3.0) };
        let p2 = Projection { min: fx(2.5), max: fx(4.0) };
        assert_eq!(overlapping_or_touching(&p2, &p1), Some(fx(0.5)));
    }
    {
        let p1 = Projection { min: fx(1.0), max: fx(3.0) };
        let p2 = Projection { min: fx(2.5), max: fx(7.0) };
        assert_eq!(overlapping_or_touching(&p2, &p1), Some(fx(0.5)));
    }
    // touching but not overlapping
    {
        let p1 = Projection { min: fx(1.0), max: fx(3.0) };
        let p2 = Projection { min: fx(3.0), max: fx(7.0) };
        assert_eq!(overlapping_or_touching(&p2, &p1), Some(fx(0.0)));
    }
    // nothing
    {
        let p1 = Projection { min: fx(1.0), max: fx(3.0) };
        let p2 = Projection { min: fx(3.1), max: fx(7.0) };
        assert_eq!(overlapping_or_touching(&p2, &p1), None);
    }
}

#[test]
fn sat_test_project() {
    let points = vec![v3(1.0, 1.0, 0.0), v3(2.0, 2.0, 0.0), v3(3.0, 3.0, 0.0)];

    let proj = project(&Directions::right(), &points);
    assert_eq!(proj.min, fx(1.0));
    assert_eq!(proj.max, fx(3.0));
}

fn square_vertices(center: &Vector3, hx: f64, hy: f64) -> Vec<Vector3> {
    vec![
        Vector3::new(
            angine::fixed::fsub(center.x(), fx(hx)),
            angine::fixed::fsub(center.y(), fx(hy)),
            fx(0.0),
        ),
        Vector3::new(
            angine::fixed::fadd(center.x(), fx(hx)),
            angine::fixed::fsub(center.y(), fx(hy)),
            fx(0.0),
        ),
        Vector3::new(
            angine::fixed::fadd(center.x(), fx(hx)),
            angine::fixed::fadd(center.y(), fx(hy)),
            fx(0.0),
        ),
        Vector3::new(
            angine::fixed::fsub(center.x(), fx(hx)),
            angine::fixed::fadd(center.y(), fx(hy)),
            fx(0.0),
        ),
    ]
}

fn square_axes(t: &Transform) -> Vec<Vector3> {
    vec![t.rotation.row(0), t.rotation.row(1)]
}

#[test]
fn sat_separating_axis_2d() {
    // sat touching
    {
        let t1 = Transform::identity();
        let t2 = Transform::translation(Directions::right());
        let v1 = square_vertices(&t1.position(), 0.5, 0.5);
        let v2 = square_vertices(&t2.position(), 0.5, 0.5);

        let sat = sat_2D(&v1, &square_axes(&t1), &v2, &square_axes(&t2));
        assert!(sat.is_some());

        let sat_unwrapped = sat.unwrap();
        let (distance, axis) = if sat_unwrapped.face_A.distance.0 < sat_unwrapped.face_B.distance.0
        {
            (sat_unwrapped.face_A.distance, sat_unwrapped.face_A.axis)
        } else {
            (sat_unwrapped.face_B.distance, sat_unwrapped.face_B.axis)
        };

        assert_eq!(distance, fx(0.0));
        assert_eq!(axis.x(), fx(1.0));
        assert_eq!(axis.y(), fx(0.0));
        assert_eq!(axis.z(), fx(0.0));
    }
    // sat overlapping
    {
        let t1 = Transform::identity();
        let t2 = Transform::translation(Directions::right());
        let v1 = square_vertices(&t1.position(), 0.5, 0.5);
        let v2 = square_vertices(&t2.position(), 0.6, 0.5);

        let sat = sat_2D(&v1, &square_axes(&t1), &v2, &square_axes(&t2));
        assert!(sat.is_some());
        let sat_unwrapped = sat.unwrap();
        let (distance, axis) = if sat_unwrapped.face_A.distance.0 < sat_unwrapped.face_B.distance.0
        {
            (sat_unwrapped.face_A.distance, sat_unwrapped.face_A.axis)
        } else {
            (sat_unwrapped.face_B.distance, sat_unwrapped.face_B.axis)
        };

        assert!((to_f(distance) - 0.1).abs() < 1.0e-6);
        assert_eq!(axis.x(), fx(1.0));
        assert_eq!(axis.y(), fx(0.0));
        assert_eq!(axis.z(), fx(0.0));
    }
    // no projection on all axis, no intersection
    {
        let t1 = Transform::identity();
        let t2 = Transform::translation(v3(2.0, 0.0, 0.0));
        let v1 = square_vertices(&t1.position(), 0.5, 0.5);
        let v2 = square_vertices(&t2.position(), 0.5, 0.5);
        let sat = sat_2D(&v1, &square_axes(&t1), &v2, &square_axes(&t2));
        assert!(sat.is_none());
    }
}

/// Same cases as in computing the intersection between two boxes.
#[test]
fn sat_separating_axis_3d() {
    // no intersection
    {
        let obb1 = OBB::new(v3(1.0, 1.0, 1.0));
        let mut obb2 = OBB::new(v3(1.0, 1.0, 1.0));
        obb2.transform = Transform::translation(Directions::right().scale(fx(3.0)));

        let r = sat_3D(&obb1, &obb2);
        assert!(r.is_none());
    }
    // oriented
    {
        let mut obb1 = OBB::new(v3(1.0, 1.0, 1.0));
        obb1.transform = Transform::rotation(Rotation::Z(fx(std::f64::consts::FRAC_PI_4)));
        let mut obb2 = OBB::new(v3(1.0, 1.0, 1.0));
        obb2.transform = Transform::translation(Directions::right());
        let r = sat_3D(&obb1, &obb2);
        assert!(r.is_some());
    }
    // vertex touching
    {
        let obb1 = OBB::new(v3(1.0, 1.0, 1.0));
        let mut obb2 = OBB::new(v3(1.0, 1.0, 1.0));
        obb2.transform = Transform::translation(v3(1.0, 1.0, 1.0));
        let r = sat_3D(&obb1, &obb2);
        assert!(r.is_some());
    }
    // edge touching
    {
        let obb1 = OBB::new(v3(1.0, 1.0, 1.0));
        let mut obb2 = OBB::new(v3(1.0, 1.0, 1.0));
        obb2.transform = Transform::translation(v3(1.0, 1.0, 0.0));
        let r = sat_3D(&obb1, &obb2);
        assert!(r.is_some());
    }
    // face touching
    {
        let obb1 = OBB::new(v3(1.0, 1.0, 1.0));
        let mut obb2 = OBB::new(v3(1.0, 1.0, 1.0));
        obb2.transform = Transform::translation(Directions::right().scale(fx(2.0)));
        let r = sat_3D(&obb1, &obb2);
        assert!(r.is_some());
    }
    // edge of A meets edge of B with no vertex of either inside the other
    {
        let obb1 = OBB::new(v3(0.5, 0.5, 0.5));
        let mut obb2 = OBB::new(v3(0.5, 0.5, 0.5));
        obb2.transform = Transform::new(
            Vector3::ones(),
            Rotation::composed(
                helper::angle_2_rad(fx(-30.0)),
                helper::angle_2_rad(fx(35.0)),
                helper::angle_2_rad(fx(45.0)),
            ),
            v3(1.0, 0.9, 0.0),
        );
        let r = sat_3D(&obb1, &obb2);
        assert!(r.is_some());
    }
    {
        let obb1 = OBB::new(v3(0.5, 0.5, 0.5));
        let mut obb2 = OBB::new(v3(0.5, 0.5, 0.5));
        obb2.transform = Transform::new(
            Vector3::ones(),
            Rotation::composed(
                helper::angle_2_rad(fx(30.0)),
                helper::angle_2_rad(fx(-35.0)),
                helper::angle_2_rad(fx(-45.0)),
            ),
            v3(1.2, 1.2, 0.0),
        );
        let r = sat_3D(&obb1, &obb2);
        assert!(r.is_none());
    }
}
