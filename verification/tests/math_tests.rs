//! Tests of the mathematical kernel: vectors, matrices, quaternions and
//! rotation constructors.

use angine::fixed::Fx;
use angine::math::helper;
use angine::math::matrix::Mat3;
use angine::math::quaternion::Quaternion;
use angine::math::rotation_matrix::RotationMatrix;
use angine::math::transform::Rotation;
use angine::math::transform::Transform;
use angine::math::vector::cross;
use angine::math::vector::dot;
use angine::math::vector::normalize;
use angine::math::vector::normalized;
use angine::math::vector::Directions;
use angine::math::vector::Vector3;

fn fx(x: f64) -> Fx {
    Fx((x * 1e9).round() as i64)
}

fn to_f(v: Fx) -> f64 {
    v.0 as f64 / 1e9
}

fn assert_near(a: Fx, b: f64) {
    assert!((to_f(a) - b).abs() < 1.0e-6, "{} vs {}", to_f(a), b);
}

fn v3(x: f64, y: f64, z: f64) -> Vector3 {
    Vector3::new(fx(x), fx(y), fx(z))
}

fn mat(arr: [[f64; 3]; 3]) -> Mat3 {
    Mat3::from_array([
        [fx(arr[0][0]), fx(arr[0][1]), fx(arr[0][2])],
        [fx(arr[1][0]), fx(arr[1][1]), fx(arr[1][2])],
        [fx(arr[2][0]), fx(arr[2][1]), fx(arr[2][2])],
    ])
}

const FRAC_PI_2: f64 = std::f64::consts::FRAC_PI_2;

#[test]
fn vector_vector_div() {
    let v = v3(2.0, 4.0, 6.0);
    let vv = v.divs(fx(2.0));
    assert_eq!(vv.x(), fx(1.0));
    assert_eq!(vv.y(), fx(2.0));
    assert_eq!(vv.z(), fx(3.0));
}

#[test]
fn vector_vector_div_assign() {
    let mut v = v3(2.0, 4.0, 6.0);
    v = v.divs(fx(2.0));
    assert_eq!(v.x(), fx(1.0));
    assert_eq!(v.y(), fx(2.0));
    assert_eq!(v.z(), fx(3.0));
}

#[test]
fn vector_vector_normalize() {
    let r = 56f64.sqrt();
    let mut v = v3(2.0, 4.0, 6.0);
    normalize(&mut v);

    assert_near(v.x(), 2.0 / r);
    assert_near(v.y(), 4.0 / r);
    assert_near(v.z(), 6.0 / r);
}

#[test]
fn vector_vector_normalized() {
    let r = 56f64.sqrt();
    let v = v3(2.0, 4.0, 6.0);
    let vv = normalized(&v);

    assert_near(vv.x(), 2.0 / r);
    assert_near(vv.y(), 4.0 / r);
    assert_near(vv.z(), 6.0 / r);
}

#[test]
fn vector_vector_dot_product() {
    let v = v3(1.0, 2.0, 3.0);
    let vv = v3(0.5, 0.4, 0.6);

    assert_eq!(dot(&v, &vv), fx(0.5 + 0.8 + 1.8));
}

#[test]
fn test_orientation_cross_product_vec() {
    // since we're using a left hand coordinate system
    {
        let r = cross(&Directions::up(), &Directions::forward());
        assert_eq!(r.x(), fx(1.0));
        assert_eq!(r.y(), fx(0.0));
        assert_eq!(r.z(), fx(0.0));
    }
    {
        let r = cross(&Directions::forward(), &Directions::right());
        assert_eq!(r.x(), fx(0.0));
        assert_eq!(r.y(), fx(1.0));
        assert_eq!(r.z(), fx(0.0));
    }
    {
        let r = cross(&Directions::right(), &Directions::up());
        assert_eq!(r.x(), fx(0.0));
        assert_eq!(r.y(), fx(0.0));
        assert_eq!(r.z(), fx(1.0));
    }
}

#[test]
fn matrix_mul() {
    let arr = [[1.0, 2.0, 3.0], [4.0, 5.0, 6.0], [7.0, 8.0, 9.0]];
    let left = mat(arr);
    let right = mat(arr);

    let l_r0 = left.row(0);
    let l_r1 = left.row(1);
    let l_r2 = left.row(2);

    let r_c0 = right.col(0);
    let r_c1 = right.col(1);
    let r_c2 = right.col(2);

    let m = left.mul_mat(&right);
    assert_eq!(m.at(0, 0), dot(&l_r0, &r_c0));
    assert_eq!(m.at(1, 0), dot(&l_r1, &r_c0));
    assert_eq!(m.at(2, 0), dot(&l_r2, &r_c0));

    assert_eq!(m.at(0, 1), dot(&l_r0, &r_c1));
    assert_eq!(m.at(1, 1), dot(&l_r1, &r_c1));
    assert_eq!(m.at(2, 1), dot(&l_r2, &r_c1));

    assert_eq!(m.at(0, 2), dot(&l_r0, &r_c2));
    assert_eq!(m.at(1, 2), dot(&l_r1, &r_c2));
    assert_eq!(m.at(2, 2), dot(&l_r2, &r_c2));
}

#[test]
fn matrix_vec_mul() {
    let left = mat([[1.0, 2.0, 3.0], [4.0, 5.0, 6.0], [7.0, 8.0, 9.0]]);
    let right = v3(1.0, 1.0, 1.0);
    let r = left.mul_vec(&right);

    assert_eq!(r.x(), fx(6.0));
    assert_eq!(r.y(), fx(15.0));
    assert_eq!(r.z(), fx(24.0));
}

#[test]
fn matrix_transpose() {
    let mut left = mat([[1.0, 2.0, 3.0], [4.0, 5.0, 6.0], [7.0, 8.0, 9.0]]);

    let t = left.transposed();

    for r in 0..3 {
        for c in 0..3 {
            assert_eq!(t.at(r, c), left.at(c, r));
        }
    }

    let old = left.clone();
    left.transpose();

    for r in 0..3 {
        for c in 0..3 {
            assert_eq!(old.at(r, c), left.at(c, r));
        }
    }
}

#[test]
fn cut() {
    let m = mat([[1.0, 2.0, 3.0], [4.0, 5.0, 6.0], [7.0, 8.0, 9.0]]);
    let arr = m.cut(0, 0);

    assert_eq!(arr[0][0], fx(5.0));
    assert_eq!(arr[0][1], fx(6.0));
    assert_eq!(arr[1][0], fx(8.0));
    assert_eq!(arr[1][1], fx(9.0));
}

#[test]
fn determinant() {
    {
        let m = mat([[1.0, 2.0, 3.0], [4.0, 5.0, 6.0], [7.0, 8.0, 9.0]]);
        assert_eq!(m.determinant(), fx(0.0));
    }
    {
        let m = mat([[1.0, 2.0, 3.0], [4.0, 5.0, 6.0], [7.0, 8.0, 10.0]]);
        assert_eq!(m.determinant(), fx(-3.0));
    }
}

#[test]
fn inverse() {
    let m = mat([[1.0, 2.0, 3.0], [4.0, 5.0, 6.0], [7.0, 8.0, 10.0]]);

    let inv = m.inverse();

    let id = m.mul_mat(&inv);
    // M times its inverse is the identity, up to fixed-point rounding
    for r in 0..3 {
        for c in 0..3 {
            if r == c {
                assert_near(id.at(r, c), 1.0);
            } else {
                assert_near(id.at(r, c), 0.0);
            }
        }
    }
}

#[test]
fn rotation_methods_test() {
    let rad = fx(FRAC_PI_2);
    // Z rotation
    {
        let v = v3(1.0, 0.0, 0.0);
        let rotated = RotationMatrix::Z(rad).mul_vec(&v);
        assert_near(rotated.x(), 0.0);
        assert_near(rotated.y(), 1.0);
        assert_near(rotated.z(), 0.0);
    }
    // Y rotation
    {
        let v = v3(0.0, 0.0, 1.0);
        let rotated = RotationMatrix::Y(rad).mul_vec(&v);
        assert_near(rotated.x(), 1.0);
        assert_near(rotated.y(), 0.0);
        assert_near(rotated.z(), 0.0);
    }
    // X rotation
    {
        let v = v3(0.0, 1.0, 0.0);
        let rotated = RotationMatrix::X(rad).mul_vec(&v);
        assert_near(rotated.x(), 0.0);
        assert_near(rotated.y(), 0.0);
        assert_near(rotated.z(), 1.0);
    }
    // composed
    {
        let v = v3(1.0, 0.0, 0.0);
        let rotated = RotationMatrix::composed(rad, rad, rad).mul_vec(&v);
        assert_near(rotated.x(), -1.0);
        assert_near(rotated.y(), 0.0);
        assert_near(rotated.z(), 0.0);
    }
    // axis angle
    {
        let z_axis = v3(0.0, 0.0, 1.0);
        let v = v3(1.0, 0.0, 0.0);
        let rotated = RotationMatrix::axis_angle(z_axis, rad).mul_vec(&v);
        assert_near(rotated.x(), 0.0);
        assert_near(rotated.y(), 1.0);
        assert_near(rotated.z(), 0.0);
    }
}

// a rotation on each axis is clockwise when looking toward the negative
// side of the axis
#[test]
fn rotation_are_clockwise() {
    let x = Rotation::X(helper::angle_2_rad(fx(90.0)));
    let v = Directions::up();
    let r = x.mul_vec(&v);
    assert_eq!(
        helper::round_n_decimal_vector(&r, 6),
        helper::round_n_decimal_vector(&Directions::forward(), 6)
    );

    let y = Rotation::Y(helper::angle_2_rad(fx(90.0)));
    let v = Directions::forward();
    let r = y.mul_vec(&v);
    assert_eq!(
        helper::round_n_decimal_vector(&r, 6),
        helper::round_n_decimal_vector(&Directions::right(), 6)
    );

    let z = Rotation::Z(helper::angle_2_rad(fx(90.0)));
    let v = Directions::right();
    let r = z.mul_vec(&v);
    assert_eq!(
        helper::round_n_decimal_vector(&r, 6),
        helper::round_n_decimal_vector(&Directions::up(), 6)
    );
}

#[test]
fn testtesttest() {
    let x = Rotation::X(helper::angle_2_rad(fx(90.0)));
    let v = Directions::up();
    println!("{:?} {:?}", v, x.mul_vec(&v));
    println!("{:?} ", x);

    let y = Rotation::Y(helper::angle_2_rad(fx(90.0)));
    let v = Directions::forward();
    println!("{:?} {:?}", v, y.mul_vec(&v));
    println!("{:?} ", y);

    let z = Rotation::Z(helper::angle_2_rad(fx(90.0)));
    let v = Directions::right();
    println!("{:?} {:?}", v, z.mul_vec(&v));
    println!("{:?} ", z);
}

#[test]
fn test_axis_vs_angle() {
    let v = Directions::up();
    let q = Quaternion::from_euler_rads(
        helper::angle_2_rad(fx(90.0)),
        helper::angle_2_rad(fx(0.0)),
        helper::angle_2_rad(fx(0.0)),
    );
    let qq = Quaternion::from_rad_axis(helper::angle_2_rad(fx(90.0)), Directions::right());

    let vv = q.rotate(&v);
    let vvv = qq.rotate(&v);
    assert_eq!(
        helper::round_n_decimal_vector(&vv, 6),
        helper::round_n_decimal_vector(&vvv, 6)
    );
}

#[test]
fn test_to_mat() {
    let q = Quaternion::from_euler_rads(
        helper::angle_2_rad(fx(90.0)),
        helper::angle_2_rad(fx(0.0)),
        helper::angle_2_rad(fx(0.0)),
    );
    let v = Directions::up();
    let vv = q.rotate(&v);
    let m = q.to_mat3();
    let vvv = m.mul_vec(&v);

    assert!((to_f(vv.x()) - to_f(vvv.x())).abs() < 1.0e-6);
    assert!((to_f(vv.y()) - to_f(vvv.y())).abs() < 1.0e-6);
    assert!((to_f(vv.z()) - to_f(vvv.z())).abs() < 1.0e-6);

    let x_angle = -30.0;
    let y_angle = 35.0;
    let z_angle = 45.0;
    let v = v3(0.5, 0.6, 0.7);

    // z then y
    let q = Quaternion::from_euler_angles(fx(x_angle), fx(y_angle), fx(z_angle));
    let m = q.to_mat3();
    let vv = q.rotate(&v);
    let vvv = m.mul_vec(&v);

    assert!((to_f(vv.x()) - to_f(vvv.x())).abs() < 1.0e-6);
    assert!((to_f(vv.y()) - to_f(vvv.y())).abs() < 1.0e-6);
    assert!((to_f(vv.z()) - to_f(vvv.z())).abs() < 1.0e-6);
}

#[test]
fn quaternion_rotation() {
    // rot around Z
    {
        let q = Quaternion::from_euler_rads(
            helper::angle_2_rad(fx(0.0)),
            helper::angle_2_rad(fx(0.0)),
            helper::angle_2_rad(fx(90.0)),
        );

        let r = q.rotate(&v3(1.0, 0.0, 0.0));
        assert_near(r.x(), 0.0);
        assert_near(r.y(), 1.0);
        assert_near(r.z(), 0.0);
    }
    // rot around Y
    {
        let q = Quaternion::from_euler_rads(
            helper::angle_2_rad(fx(0.0)),
            helper::angle_2_rad(fx(90.0)),
            helper::angle_2_rad(fx(0.0)),
        );

        let r = q.rotate(&v3(0.0, 0.0, 1.0));
        assert_near(r.x(), 1.0);
        assert_near(r.y(), 0.0);
        assert_near(r.z(), 0.0);
    }
    // rot around X
    {
        let q = Quaternion::from_euler_rads(
            helper::angle_2_rad(fx(90.0)),
            helper::angle_2_rad(fx(0.0)),
            helper::angle_2_rad(fx(0.0)),
        );

        let r = q.rotate(&v3(0.0, 1.0, 0.0));
        assert_near(r.x(), 0.0);
        assert_near(r.y(), 0.0);
        assert_near(r.z(), 1.0);
    }
    // composed y z
    {
        let q = Quaternion::from_euler_rads(
            helper::angle_2_rad(fx(0.0)),
            helper::angle_2_rad(fx(90.0)),
            helper::angle_2_rad(fx(45.0)),
        );

        let r = q.rotate(&v3(0.0, 1.0, 0.0));
        assert_near(r.x(), 0.0);
        assert_near(r.y(), 0.7071067);
        assert_near(r.z(), 0.7071067);
    }
}

#[test]
fn quat_composed_rotation_order_to_unity() {
    let x_angle = -30.0;
    let y_angle = 35.0;
    let z_angle = 45.0;

    // z then y
    let q = Quaternion::from_euler_angles(fx(x_angle), fx(y_angle), fx(z_angle));

    assert_near(q.w, 0.8213125);
    assert_near(q.x, -0.1168965);
    assert_near(q.y, 0.3628112);
    assert_near(q.z, 0.4244396);
}

#[test]
fn identity_transform_is_identity() {
    let p = v3(1.25, -2.5, 3.75);
    let r = Transform::identity().transform(&p);
    assert_eq!(r, p);
}

#[test]
fn quaternion_matrix_round_trip() {
    let q = Quaternion::from_euler_rads(fx(0.3), fx(0.7), fx(-0.2));
    let back = Quaternion::from_mat3(&q.to_mat3());
    // equal up to a global sign; canonical w is non-negative
    let sign = if to_f(q.w) < 0.0 { -1.0 } else { 1.0 };
    assert!((to_f(back.w) - sign * to_f(q.w)).abs() < 1.0e-5);
    assert!((to_f(back.x) - sign * to_f(q.x)).abs() < 1.0e-5);
    assert!((to_f(back.y) - sign * to_f(q.y)).abs() < 1.0e-5);
    assert!((to_f(back.z) - sign * to_f(q.z)).abs() < 1.0e-5);
}

#[test]
fn rotation_constructors_are_orthonormal() {
    let angles = [0.0, 0.5, FRAC_PI_2, 2.3, -1.1];
    for &a in angles.iter() {
        for m in [
            RotationMatrix::X(fx(a)),
            RotationMatrix::Y(fx(a)),
            RotationMatrix::Z(fx(a)),
            RotationMatrix::composed(fx(a), fx(0.4), fx(-0.2)),
            RotationMatrix::axis_angle(normalized(&v3(1.0, 2.0, 2.0)), fx(a)),
        ] {
            let g = m.mul_mat(&m.transposed());
            for r in 0..3 {
                for c in 0..3 {
                    let expect = if r == c { 1.0 } else { 0.0 };
                    assert!((to_f(g.at(r, c)) - expect).abs() < 1.0e-5);
                }
            }
            assert!(to_f(m.determinant()) > 0.0);
        }
    }
}

#[test]
fn axis_angle_fixes_its_axis() {
    let axes = [v3(0.0, 0.0, 1.0), v3(1.0, 2.0, 2.0), v3(-1.0, 0.5, 3.0)];
    let angles = [0.3, FRAC_PI_2, 2.3, -1.1];
    for ax in axes.iter() {
        let u = normalized(ax);
        for &a in angles.iter() {
            let m = RotationMatrix::axis_angle(u, fx(a));
            // the rotation really happened (the checked fallback is the
            // identity, which would leave this off-axis probe in place)
            let probe = v3(2.0, -1.0, 0.5);
            let moved = m.mul_vec(&probe);
            let shift = (to_f(moved.x()) - to_f(probe.x())).abs()
                + (to_f(moved.y()) - to_f(probe.y())).abs()
                + (to_f(moved.z()) - to_f(probe.z())).abs();
            assert!(shift > 0.01);
            // and it leaves its own axis in place
            let w = m.mul_vec(&u);
            assert!((to_f(w.x()) - to_f(u.x())).abs() < 1.0e-5);
            assert!((to_f(w.y()) - to_f(u.y())).abs() < 1.0e-5);
            assert!((to_f(w.z()) - to_f(u.z())).abs() < 1.0e-5);
        }
    }
}

#[test]
fn fixed_point_arithmetic_exact_values() {
    assert_eq!(angine::fixed::fmul(fx(1.5), fx(2.0)), fx(3.0));
    assert_eq!(angine::fixed::fdiv(fx(3.0), fx(2.0)), fx(1.5));
    assert_eq!(angine::fixed::fsqrt(fx(4.0)), fx(2.0));
    assert_eq!(angine::fixed::fadd(fx(0.25), fx(0.5)), fx(0.75));
    assert_eq!(angine::fixed::fsub(fx(0.25), fx(0.5)), fx(-0.25));
    assert_eq!(angine::fixed::fabs(fx(-0.25)), fx(0.25));
    assert_eq!(helper::angle_2_rad(fx(180.0)).0, 180 * 17_453_293);
    assert_eq!(helper::round_n_decimal(fx(0.1234565), 6), fx(0.123457));
}
