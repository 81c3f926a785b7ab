//! Small scalar utilities: clamping, signs, degree/radian conversion and
//! decimal rounding.

use crate::fixed::{
    clip_s, fclamp, fdiv, fmax, fmin, fmul, fsign, mag_s, sclamp, sdiv, smax, smin, smul, ssign,
    Fx, SCALE,
};
use crate::math::vector::{Vector3, V3};
use vstd::prelude::*;

verus! {

/// pi / 180 in raw fixed-point units.
pub const RAD2ANGLECONST_RAW: i64 = 17_453_293;

pub fn clamp(x: Fx, min_v: Fx, max_v: Fx) -> (r: Fx)
    ensures
        r@ == sclamp(x@, min_v@, max_v@),
{
    fclamp(x, min_v, max_v)
}

pub open spec fn clamp_vector_s(x: V3, min_v: V3, max_v: V3) -> V3 {
    V3 {
        x: sclamp(x.x, min_v.x, max_v.x),
        y: sclamp(x.y, min_v.y, max_v.y),
        z: sclamp(x.z, min_v.z, max_v.z),
    }
}

pub fn clamp_vector(x: Vector3, min_v: &Vector3, max_v: &Vector3) -> (r: Vector3)
    ensures
        r@ == clamp_vector_s(x@, min_v@, max_v@),
{
    Vector3::new(
        clamp(x.x, min_v.x, max_v.x),
        clamp(x.y, min_v.y, max_v.y),
        clamp(x.z, min_v.z, max_v.z),
    )
}

pub open spec fn clamp_between_s(x: int, t1: int, t2: int) -> int {
    sclamp(x, smin(t1, t2), smax(t1, t2))
}

/// Clamp each coordinate of `x` between `t1` and `t2` without knowing which
/// of the two is the smaller.
pub fn clamp_vector_between(x: Vector3, t1: &Vector3, t2: &Vector3) -> (r: Vector3)
    ensures
        r@ == (V3 {
            x: clamp_between_s(x@.x, t1@.x, t2@.x),
            y: clamp_between_s(x@.y, t1@.y, t2@.y),
            z: clamp_between_s(x@.z, t1@.z, t2@.z),
        }),
{
    Vector3::new(
        clamp(x.x, fmin(t1.x, t2.x), fmax(t1.x, t2.x)),
        clamp(x.y, fmin(t1.y, t2.y), fmax(t1.y, t2.y)),
        clamp(x.z, fmin(t1.z, t2.z), fmax(t1.z, t2.z)),
    )
}

/// 1.0 for positive `x`, -1.0 otherwise.
pub fn sign(x: Fx) -> (r: Fx)
    ensures
        r@ == ssign(x@),
{
    fsign(x)
}

pub fn min(f1: Fx, f2: Fx) -> (r: Fx)
    ensures
        r@ == smin(f1@, f2@),
{
    fmin(f1, f2)
}

pub fn max(f1: Fx, f2: Fx) -> (r: Fx)
    ensures
        r@ == smax(f1@, f2@),
{
    fmax(f1, f2)
}

pub open spec fn angle_2_rad_s(angle: int) -> int {
    smul(angle, RAD2ANGLECONST_RAW as int)
}

/// Degrees to radians.
pub fn angle_2_rad(angle: Fx) -> (r: Fx)
    ensures
        r@ == angle_2_rad_s(angle@),
{
    fmul(angle, Fx(RAD2ANGLECONST_RAW))
}

pub open spec fn rad_2_angle_s(rad: int) -> int {
    sdiv(rad, RAD2ANGLECONST_RAW as int)
}

/// Radians to degrees.
pub fn rad_2_angle(rad: Fx) -> (r: Fx)
    ensures
        r@ == rad_2_angle_s(rad@),
{
    fdiv(rad, Fx(RAD2ANGLECONST_RAW))
}

/// Each coordinate converted from radians to degrees.
pub fn vect_angles(v: &Vector3) -> (r: Vector3)
    ensures
        r@ == (V3 {
            x: rad_2_angle_s(v@.x),
            y: rad_2_angle_s(v@.y),
            z: rad_2_angle_s(v@.z),
        }),
{
    Vector3::new(rad_2_angle(v.x), rad_2_angle(v.y), rad_2_angle(v.z))
}

/// Ten to the `n`-th power.
pub open spec fn pow10_s(n: int) -> int
    decreases n,
{
    if n <= 0 {
        1
    } else {
        10 * pow10_s(n - 1)
    }
}

/// Rounding of a fixed-point value to the nearest integer, halves away from
/// zero, staying in fixed-point representation.
pub open spec fn rnd_s(y: int) -> int {
    let q = (mag_s(y) + (SCALE as int) / 2) / (SCALE as int);
    if y >= 0 {
        clip_s(q * (SCALE as int))
    } else {
        clip_s(-(q * (SCALE as int)))
    }
}

/// `x` rounded to the `n`-th decimal.
pub open spec fn round_n_decimal_s(x: int, n: int) -> int {
    let p = pow10_s(n) * (SCALE as int);
    sdiv(rnd_s(smul(x, p)), p)
}

fn pow10_fx(n: u32) -> (r: i64)
    requires
        n <= 9,
    ensures
        r as int == pow10_s(n as int),
        1 <= r <= 1_000_000_000,
{
    proof {
        reveal_with_fuel(pow10_s, 11);
    }
    if n == 0 {
        1
    } else if n == 1 {
        10
    } else if n == 2 {
        100
    } else if n == 3 {
        1_000
    } else if n == 4 {
        10_000
    } else if n == 5 {
        100_000
    } else if n == 6 {
        1_000_000
    } else if n == 7 {
        10_000_000
    } else if n == 8 {
        100_000_000
    } else {
        1_000_000_000
    }
}

fn rnd(y: Fx) -> (r: Fx)
    ensures
        r@ == rnd_s(y@),
{
    let m: i128 = if y.0 < 0 {
        -(y.0 as i128)
    } else {
        y.0 as i128
    };
    let q: i128 = (m + (SCALE as i128) / 2) / (SCALE as i128);
    let back: i128 = q * (SCALE as i128);
    let signed: i128 = if y.0 < 0 {
        -back
    } else {
        back
    };
    let clipped: i64 = if signed > crate::fixed::MAX_RAW as i128 {
        crate::fixed::MAX_RAW
    } else if signed < -(crate::fixed::MAX_RAW as i128) {
        -crate::fixed::MAX_RAW
    } else {
        signed as i64
    };
    Fx(clipped)
}

/// Round `x` to the `n`-th decimal.
pub fn round_n_decimal(x: Fx, n: u32) -> (r: Fx)
    requires
        n <= 9,
    ensures
        r@ == round_n_decimal_s(x@, n as int),
{
    let p10 = pow10_fx(n);
    let div = Fx(p10 * SCALE);
    let y = fmul(x, div);
    fdiv(rnd(y), div)
}

/// Round each coordinate of `x` to the `n`-th decimal.
pub fn round_n_decimal_vector(x: &Vector3, n: u32) -> (r: Vector3)
    requires
        n <= 9,
    ensures
        r@ == (V3 {
            x: round_n_decimal_s(x@.x, n as int),
            y: round_n_decimal_s(x@.y, n as int),
            z: round_n_decimal_s(x@.z, n as int),
        }),
{
    Vector3::new(round_n_decimal(x.x, n), round_n_decimal(x.y, n), round_n_decimal(x.z, n))
}

} // verus!
