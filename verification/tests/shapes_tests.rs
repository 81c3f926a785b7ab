//! Tests of the shape primitives: plane, box and segment.

use angine::engine::shapes::{Plane, Segment, OBB};
use angine::fixed::Fx;
use angine::math::helper;
use angine::math::transform::{Rotation, Transform};
use angine::math::vector::{dot, Directions, Vector3};

fn fx(x: f64) -> Fx {
    Fx((x * 1e9).round() as i64)
}

fn to_f(v: Fx) -> f64 {
    v.0 as f64 / 1e9
}

fn assert_near(a: Fx, b: f64) {
    assert!((to_f(a) - b).abs() < 1.0e-6, "{} vs {}", to_f(a), b);
}

fn v3(x: f64, y: f64, z: f64) -> Vector3 {
    Vector3::new(fx(x), fx(y), fx(z))
}

#[test]
fn plane_plane_signed_distance() {
    {
        let mut plan = Plane::new(Directions::up());
        plan.transform.translation = v3(0.0, 1.0, 0.0);
        let p = v3(0.0, 2.0, 0.0);
        assert_near(plan.signed_distance(&p), 1.0);
    }
    {
        let mut plan = Plane::new(Directions::up());
        plan.transform.translation = v3(0.0, 1.0, 0.0);
        let p = v3(0.0, -1.0, 0.0);
        assert_near(plan.signed_distance(&p), -2.0);
    }
    {
        let plan = Plane::new(Directions::up());
        let p = v3(1.5, 1.0, 1.0);
        assert_near(plan.signed_distance(&p), to_f(dot(&p, &plan.normal)));
    }
    {
        let plan = Plane::new(
            Rotation::Y(fx(std::f64::consts::FRAC_PI_4)).mul_vec(&Directions::right()),
        );
        let p = v3(0.0, 0.0, -1.0);
        assert_near(plan.signed_distance(&p), to_f(dot(&p, &plan.normal)));
    }
    {
        let plan = Plane::new(Directions::up());
        let p = Directions::up();
        assert_near(plan.signed_distance(&p), 1.0);
    }
    {
        let plan = Plane::new(Directions::up());
        let p = Vector3::origin();
        assert_near(plan.signed_distance(&p), 0.0);
    }
}

#[test]
fn test_reject_point_on_plane() {
    {
        let p = v3(1.0, 2.0, 3.0);
        let plane = Plane::new(Directions::up());

        let r = plane.reject_point_on_plane(&p);
        assert_eq!(r.x(), fx(1.0));
        assert_eq!(r.y(), fx(0.0));
        assert_eq!(r.z(), fx(3.0));
    }
    {
        let p = v3(1.0, 2.0, 3.0);
        let plane = Plane::new(Directions::right());

        let r = plane.reject_point_on_plane(&p);
        assert_eq!(r.x(), fx(0.0));
        assert_eq!(r.y(), fx(2.0));
        assert_eq!(r.z(), fx(3.0));
    }
    {
        let p = v3(1.0, 2.0, 3.0);
        let mut plane = Plane::new(Directions::right());
        plane.set_transform(Transform::translation(Directions::right().scale(fx(-3.0))));

        let r = plane.reject_point_on_plane(&p);
        assert_eq!(r.x(), fx(-3.0));
        assert_eq!(r.y(), fx(2.0));
        assert_eq!(r.z(), fx(3.0));
    }
    {
        let p = v3(1.0, 2.0, 3.0);
        let mut plane = Plane::new(Directions::up().vneg());
        plane.set_transform(Transform::translation(Directions::up().scale(fx(3.0))));

        let r = plane.reject_point_on_plane(&p);
        assert_eq!(r.x(), fx(1.0));
        assert_eq!(r.y(), fx(3.0));
        assert_eq!(r.z(), fx(3.0));
    }
}

#[test]
fn obb_OBB_is_inside() {
    // not rotated
    {
        let obb = OBB::new(v3(1.0, 1.0, 1.0));
        // not inside
        {
            let p = v3(2.0, 2.0, 2.0);
            assert_eq!(obb.is_inside(&p), false);
        }
        // on the contour
        {
            let p = v3(1.0, 1.0, 1.0);
            assert_eq!(obb.is_inside(&p), true);
        }
        // inside
        {
            let p = v3(0.5, 0.5, 0.5);
            assert_eq!(obb.is_inside(&p), true);
        }

        let obb = OBB::new(v3(1.0, 1.0, 2.0));
        let p = v3(0.5, 0.5, 3.0);
        assert_eq!(obb.is_inside(&p), false);
    }
    // rotated
    {
        let mut obb = OBB::new(v3(1.0, 1.0, 1.0));
        obb.transform = Transform::rotation(Rotation::Z(fx(std::f64::consts::FRAC_PI_4)));
        // not inside
        {
            let p = v3(2.0, 2.0, 2.0);
            assert_eq!(obb.is_inside(&p), false);
        }
        // on the contour
        {
            assert_eq!(obb.is_inside(&obb.max()), true);
            assert_eq!(obb.is_inside(&obb.max().vadd(&v3(0.1, 0.1, 0.1))), false);
        }
        // inside
        {
            let p = v3(0.2, 0.2, 0.2);
            assert_eq!(obb.is_inside(&p), true);
        }
    }
}

#[test]
fn OBB_project_point_onto_contour() {
    // project_point_onto_contour_or_inside
    {
        // not rotated
        {
            let obb = OBB::new(v3(1.0, 1.0, 1.0));
            let p = obb.project_point_onto_contour_or_inside(&v3(1.5, 1.5, 0.0));
            assert_eq!(p.x(), fx(1.0));
            assert_eq!(p.y(), fx(1.0));
            assert_eq!(p.z(), fx(0.0));
        }
        // rotated
        {
            {
                let mut obb = OBB::new(v3(1.0, 1.0, 1.0));
                obb.transform = Transform::rotation(Rotation::Z(fx(std::f64::consts::FRAC_PI_4)));

                let p = obb.project_point_onto_contour_or_inside(&v3(0.0, 2.0, 0.0));

                assert_near(p.x(), 0.0);
                assert_near(p.y(), 2f64.sqrt());
                assert_near(p.z(), 0.0);
            }
            {
                let mut obb = OBB::new(v3(1.0, 1.0, 2.0));
                obb.transform = Transform::rotation(Rotation::Z(fx(std::f64::consts::FRAC_PI_4)));
                let p = obb.project_point_onto_contour_or_inside(&v3(0.0, 2.0, 2.0));

                assert_near(p.x(), 0.0);
                assert_near(p.y(), 2f64.sqrt());
                assert_near(p.z(), 2.0);
            }
        }
    }
    // project_point_onto_contour_only
    {
        {
            let obb = OBB::new(v3(2.0, 1.0, 1.0));
            let p = obb.project_point_onto_contour_only(&v3(1.0, 0.0, 0.0));
            assert_eq!(p.x(), fx(2.0));
            assert_eq!(p.y(), fx(0.0));
            assert_eq!(p.z(), fx(0.0));
        }
        // edge
        {
            let obb = OBB::new(Vector3::value(fx(1.0)));
            let p = obb.project_on_contour_in_direction(&v3(1.0, 1.0, 0.0));
            assert_eq!(p.x(), fx(1.0));
            assert_eq!(p.y(), fx(1.0));
            assert_eq!(p.z(), fx(0.0));
        }
        // direction not normalized
        {
            let obb = OBB::new(Vector3::value(fx(1.0)));
            let p = obb.project_on_contour_in_direction(&v3(2.0, 2.0, 0.0));
            assert_eq!(p.x(), fx(1.0));
            assert_eq!(p.y(), fx(1.0));
            assert_eq!(p.z(), fx(0.0));
        }
        // corner
        {
            let obb = OBB::new(Vector3::value(fx(1.0)));
            let p = obb.project_on_contour_in_direction(&v3(1.0, 1.0, 1.0));
            assert_eq!(p.x(), fx(1.0));
            assert_eq!(p.y(), fx(1.0));
            assert_eq!(p.z(), fx(1.0));
        }
        // with rectangle
        {
            let obb = OBB::new(v3(2.0, 1.0, 1.0));
            let p = obb.project_on_contour_in_direction(&v3(2.0, 1.0, 0.0));
            assert_eq!(p.x(), fx(2.0));
            assert_eq!(p.y(), fx(1.0));
            assert_eq!(p.z(), fx(0.0));
        }
        // rotated
        {
            let t = Transform::rotation(Rotation::Z(helper::angle_2_rad(fx(45.0))));
            let pp = t.transform(&v3(-1.0, -1.0, -1.0));
            let mut obb = OBB::new(v3(1.0, 1.0, 1.0));
            obb.transform = t;
            let p = obb.project_on_contour_in_direction(&v3(0.0, -1.0, 0.0));

            assert_near(p.x(), to_f(pp.x()));
            assert_near(p.y(), to_f(pp.y()));
            assert_near(p.z(), 0.0);
        }
    }
}

#[test]
fn normal_face_test() {
    let mut obb = OBB::new(v3(1.0, 1.0, 1.0));
    obb.transform = Transform::new(
        Vector3::ones(),
        Rotation::composed(
            helper::angle_2_rad(fx(30.0)),
            helper::angle_2_rad(fx(-35.0)),
            helper::angle_2_rad(fx(-45.0)),
        ),
        v3(1.125, 0.934, 0.0),
    );

    for axis in 0..3 {
        let row = obb.transform.rotation.row(axis);
        let plus = obb.face_normal(axis * 2);
        assert_eq!(row.x(), plus.x());
        assert_eq!(row.y(), plus.y());
        assert_eq!(row.z(), plus.z());

        let minus = obb.face_normal(axis * 2 + 1);
        assert_eq!(row.vneg().x(), minus.x());
        assert_eq!(row.vneg().y(), minus.y());
        assert_eq!(row.vneg().z(), minus.z());
    }
}

#[test]
fn test_intersect_plane() {
    {
        let line = Segment::new(v3(0.0, 0.0, 0.0), v3(2.0, 2.0, 0.0));

        let mut plane = Plane::new(Directions::up());
        plane.set_position(v3(0.0, 1.0, 0.0));

        let r = line.intersect_plane(&plane);
        assert!(r.is_some());

        let p = r.unwrap();
        assert_eq!(p.x(), fx(1.0));
        assert_eq!(p.y(), fx(1.0));
        assert_eq!(p.z(), fx(0.0));
    }
    {
        let line = Segment::new(v3(0.0, 0.0, 0.0), v3(1.0, 0.0, 0.0));

        let mut plane = Plane::new(Directions::right());
        plane.set_position(v3(1.0, 0.0, 0.0));

        let r = line.intersect_plane(&plane);
        assert!(r.is_some());

        let p = r.unwrap();
        assert_eq!(p.x(), fx(1.0));
        assert_eq!(p.y(), fx(0.0));
        assert_eq!(p.z(), fx(0.0));
    }
    {
        // from a recorded run: the plane and the segment do not meet
        // within the segment's parameter range
        let a = v3(-1.0003452, -8.050068, 1.0);
        let b = v3(0.99965465, -8.049377, 1.0);
        let mut plane = Plane::new(v3(0.0, 1.0, 0.0));
        plane.set_position(v3(0.0, -10.0, 0.0));
        let seg = Segment::new(a, b);
        let r = seg.intersect_plane(&plane);
        assert!(r.is_none());
    }
}

#[test]
fn segment_test_closest_point_on_lines() {
    // perpendicular to X axis
    {
        let l1 = Segment::new(v3(3.0, 0.0, 0.0), v3(3.0, 1.0, 1.0));
        let l2 = Segment::new(v3(3.0, 3.0, 0.0), v3(3.0, 0.0, 1.5));

        let r = l1.intersect_line(&l2);
        assert!(r.is_some());

        let r = r.unwrap();

        assert_eq!(l1.is_point_on_line(r), true);
        assert_eq!(l2.is_point_on_line(r), true);

        assert_near(r.x(), 3.0);
        assert_near(r.y(), 1.0);
        assert_near(r.z(), 1.0);
    }
    // perpendicular to Y axis
    {
        let l1 = Segment::new(v3(0.0, 3.0, 0.0), v3(1.0, 3.0, 1.0));
        let l2 = Segment::new(v3(0.0, 3.0, 3.0), v3(1.5, 3.0, 0.0));

        let r = l1.intersect_line(&l2);
        assert!(r.is_some());

        let r = r.unwrap();

        assert_eq!(l1.is_point_on_line(r), true);
        assert_eq!(l2.is_point_on_line(r), true);
        assert_near(r.x(), 1.0);
        assert_near(r.y(), 3.0);
        assert_near(r.z(), 1.0);
    }
    // perpendicular to Z axis
    {
        let l1 = Segment::new(Vector3::origin(), v3(1.0, 1.0, 0.0));
        let l2 = Segment::new(v3(0.0, -1.0, 0.0), v3(1.0, 2.0, 0.0));

        let r = l1.intersect_line(&l2);
        assert!(r.is_some());

        let r = r.unwrap();

        assert_eq!(l1.is_point_on_line(r), true);
        assert_eq!(l2.is_point_on_line(r), true);
        assert_near(r.x(), 0.5);
        assert_near(r.y(), 0.5);
        assert_near(r.z(), 0.0);
    }
    // general case: the plane perpendicular to Z turned 45 degrees about Y
    {
        let rotation = Rotation::Y(helper::angle_2_rad(fx(45.0)));
        let l1 = Segment::new(Vector3::origin(), rotation.mul_vec(&v3(1.0, 1.0, 0.0)));
        let l2 = Segment::new(
            rotation.mul_vec(&v3(0.0, -1.0, 0.0)),
            rotation.mul_vec(&v3(1.0, 2.0, 0.0)),
        );

        let r = l1.intersect_line(&l2);
        assert!(r.is_some());

        let r = r.unwrap();

        assert_eq!(l1.is_point_on_line(r), true);
        assert_eq!(l2.is_point_on_line(r), true);

        let rotated_intersect_point = rotation.mul_vec(&v3(0.5, 0.5, 0.0));
        assert_near(r.x(), to_f(rotated_intersect_point.x()));
        assert_near(r.y(), to_f(rotated_intersect_point.y()));
        assert_near(r.z(), to_f(rotated_intersect_point.z()));
    }
    // not intersecting
    {
        let l1 = Segment::new(Vector3::origin(), Directions::up().scale(fx(5.0)));
        let l2 = Segment::new(v3(1.0, 1.0, -3.0), v3(1.0, 1.0, 3.0));
        let r = l1.intersect_line(&l2);
        assert!(r.is_none());
    }
    // not intersecting: closest points
    {
        let l1 = Segment::new(Vector3::origin(), Directions::up().scale(fx(5.0)));
        let l2 = Segment::new(v3(1.0, 1.0, -3.0), v3(1.0, 1.0, 3.0));
        let r = l1.closest_point_each_other(&l2);
        assert_near(r[0].x(), 0.0);
        assert_near(r[0].y(), 1.0);
        assert_near(r[0].z(), 0.0);
    }
}
