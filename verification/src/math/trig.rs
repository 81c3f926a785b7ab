//! Sine and cosine on fixed-point radians.
//!
//! The angle is wrapped into `[-pi, pi]`, both functions are evaluated by a
//! Taylor polynomial in Horner form, and the resulting pair is divided by
//! its own 2-norm.  A final runtime check guarantees the Pythagorean bound
//! that the rotation-matrix laws rest on; if the check ever failed the pair
//! (0, 1) would be returned, which satisfies the bound exactly.

use crate::fixed::{
    clip_s,
    clip128, fadd, fdiv, fdivn, fmul, fsqrt, fsub, mag_s, qdiv128, qdiv_s, sadd, sdiv, sdivi,
    smul, ssqrt, ssub, Fx, MAX_RAW, SCALE,
};
use vstd::arithmetic::div_mod::{lemma_fundamental_div_mod, lemma_mod_bound};
use vstd::prelude::*;

verus! {

/// pi in raw fixed-point units.
pub const PI_RAW: i64 = 3_141_592_654;

/// 2 pi in raw fixed-point units.
pub const TWO_PI_RAW: i64 = 6_283_185_307;

/// Largest distance, in raw units, that the squared norm of a returned
/// (sin, cos) pair may have from 1.0.
pub const EPS_UNIT: i64 = 1_000;

/// The angle translated by a whole multiple of 2 pi into `[-pi, pi]`.
pub open spec fn wrap_s(th: int) -> int {
    let r = th - qdiv_s(th, TWO_PI_RAW as int) * (TWO_PI_RAW as int);
    if r > PI_RAW as int {
        r - TWO_PI_RAW as int
    } else if r < -(PI_RAW as int) {
        r + TWO_PI_RAW as int
    } else {
        r
    }
}

/// Taylor polynomial for the sine on `[-pi, pi]`, in Horner form.
pub open spec fn sin_taylor_s(r: int) -> int {
    let t = smul(r, r);
    let p7 = ssub(SCALE as int, sdivi(t, 210));
    let p6 = ssub(SCALE as int, sdivi(smul(t, p7), 156));
    let p5 = ssub(SCALE as int, sdivi(smul(t, p6), 110));
    let p4 = ssub(SCALE as int, sdivi(smul(t, p5), 72));
    let p3 = ssub(SCALE as int, sdivi(smul(t, p4), 42));
    let p2 = ssub(SCALE as int, sdivi(smul(t, p3), 20));
    let p1 = ssub(SCALE as int, sdivi(smul(t, p2), 6));
    smul(r, p1)
}

/// Taylor polynomial for the cosine on `[-pi, pi]`, in Horner form.
pub open spec fn cos_taylor_s(r: int) -> int {
    let t = smul(r, r);
    let q7 = ssub(SCALE as int, sdivi(t, 182));
    let q6 = ssub(SCALE as int, sdivi(smul(t, q7), 132));
    let q5 = ssub(SCALE as int, sdivi(smul(t, q6), 90));
    let q4 = ssub(SCALE as int, sdivi(smul(t, q5), 56));
    let q3 = ssub(SCALE as int, sdivi(smul(t, q4), 30));
    let q2 = ssub(SCALE as int, sdivi(smul(t, q3), 12));
    ssub(SCALE as int, sdivi(smul(t, q2), 2))
}

/// Shrink the larger member of a pair toward zero, one raw unit at a
/// time, until the exact sum of squares no longer exceeds 1, or the fuel
/// runs out.
pub open spec fn shrink_pair_s(s: int, c: int, fuel: int) -> (int, int)
    decreases fuel,
{
    if fuel <= 0 || s * s + c * c <= (SCALE as int) * (SCALE as int) {
        (s, c)
    } else if mag_s(s) >= mag_s(c) {
        shrink_pair_s(if s >= 0 { s - 1 } else { s + 1 }, c, fuel - 1)
    } else {
        shrink_pair_s(s, if c >= 0 { c - 1 } else { c + 1 }, fuel - 1)
    }
}

/// The sine-cosine pair of an angle, after wrapping, Taylor evaluation and
/// normalization of the pair.  The pair is nudged so that its exact sum of
/// squares never exceeds 1; a pair that still fails the unit checks gives
/// way to (0, 1).
pub open spec fn sincos_s(th: int) -> (int, int) {
    let r = wrap_s(th);
    let s0 = sin_taylor_s(r);
    let c0 = cos_taylor_s(r);
    let nn = ssqrt(sadd(smul(s0, s0), smul(c0, c0)));
    if nn == 0 {
        (0, SCALE as int)
    } else {
        let s1 = sdiv(s0, nn);
        let c1 = sdiv(c0, nn);
        if mag_s(s1) <= 2 * SCALE as int && mag_s(c1) <= 2 * SCALE as int {
            let sh = shrink_pair_s(s1, c1, 8);
            if mag_s(sadd(smul(sh.0, sh.0), smul(sh.1, sh.1)) - SCALE as int) <= EPS_UNIT as int
                && sh.0 * sh.0 + sh.1 * sh.1 <= (SCALE as int) * (SCALE as int) {
                sh
            } else {
                (0, SCALE as int)
            }
        } else {
            (0, SCALE as int)
        }
    }
}

/// Shorthand for the Pythagorean distance of a (sin, cos) pair from 1.
pub open spec fn unit_defect_s(s: int, c: int) -> int {
    mag_s(sadd(smul(s, s), smul(c, c)) - SCALE as int)
}

/// The pair `sincos_s` denotes always satisfies the Pythagorean bound, and
/// its exact sum of squares never exceeds 1.
pub proof fn lemma_sincos_unit(th: int)
    ensures
        unit_defect_s(sincos_s(th).0, sincos_s(th).1) <= EPS_UNIT as int,
        sincos_s(th).0 * sincos_s(th).0 + sincos_s(th).1 * sincos_s(th).1 <= (SCALE as int) * (
        SCALE as int),
{
    crate::fixed::lemma_smul_one(SCALE as int);
}

/// A value whose fixed-point square is at most a little over 1.0 lies
/// within 2.0 of zero.
proof fn lemma_sq_bound(s: int, a: int)
    requires
        a == smul(s, s),
        a <= SCALE as int + EPS_UNIT as int,
    ensures
        mag_s(s) <= 2 * SCALE as int,
{
    assert(s * s >= 0) by (nonlinear_arith);
    let p = s * s;
    let d = SCALE as int;
    vstd::arithmetic::div_mod::lemma_fundamental_div_mod(p, d);
    vstd::arithmetic::div_mod::lemma_mod_bound(p, d);
    let q = p / d;
    let rem = p % d;
    assert(q >= 0) by (nonlinear_arith)
        requires
            p == d * q + rem,
            0 <= rem < d,
            p >= 0,
            d == SCALE as int,
    ;
    assert(qdiv_s(p, d) == q);
    assert(a == clip_s(q));
    assert(q <= MAX_RAW as int);
    assert(a == q);
    assert(mag_s(s) <= 2 * (SCALE as int)) by (nonlinear_arith)
        requires
            s * s == p,
            p == d * q + rem,
            0 <= rem < d,
            q <= d + EPS_UNIT as int,
            d == SCALE as int,
            SCALE == 1_000_000_000i64,
            EPS_UNIT == 1_000i64,
    ;
}

/// Both members of a pair within the Pythagorean bound lie within 2.0 of 0.
pub proof fn lemma_unit_pair_bounds(s: int, c: int)
    requires
        unit_defect_s(s, c) <= EPS_UNIT as int,
    ensures
        mag_s(s) <= 2 * SCALE as int,
        mag_s(c) <= 2 * SCALE as int,
{
    assert(s * s >= 0) by (nonlinear_arith);
    assert(c * c >= 0) by (nonlinear_arith);
    let a = smul(s, s);
    let b = smul(c, c);
    assert(a >= 0 && b >= 0);
    assert(a <= SCALE as int + EPS_UNIT as int && b <= SCALE as int + EPS_UNIT as int);
    lemma_sq_bound(s, a);
    lemma_sq_bound(c, b);
}

/// Wrap an angle into `[-pi, pi]` by subtracting a whole number of turns.
pub fn wrap_rad(th: Fx) -> (r: Fx)
    ensures
        r@ == wrap_s(th@),
        -(PI_RAW as int) <= r@ <= PI_RAW as int,
{
    let t: i128 = th.0 as i128;
    let d: i128 = TWO_PI_RAW as i128;
    let q: i128 = qdiv128(t, d);
    proof {
        let n = t as int;
        let dd = d as int;
        lemma_fundamental_div_mod(mag_s(n), dd);
        lemma_mod_bound(mag_s(n), dd);
        let q0 = mag_s(n) / dd;
        assert(dd * q0 == q0 * dd) by (nonlinear_arith);
        if n < 0 {
            assert(q as int == -q0);
            assert((-q0) * dd == -(q0 * dd)) by (nonlinear_arith);
        } else {
            assert(q as int == q0);
        }
        assert(n - q as int * dd == n - q as int * dd);
    }
    let r0: i128 = t - q * d;
    let r1: i128 = if r0 > PI_RAW as i128 {
        r0 - d
    } else if r0 < -(PI_RAW as i128) {
        r0 + d
    } else {
        r0
    };
    Fx(r1 as i64)
}

fn sin_taylor(r: Fx) -> (s: Fx)
    ensures
        s@ == sin_taylor_s(r@),
{
    let one = Fx(SCALE);
    let t = fmul(r, r);
    let p7 = fsub(one, fdivn(t, 210));
    let p6 = fsub(one, fdivn(fmul(t, p7), 156));
    let p5 = fsub(one, fdivn(fmul(t, p6), 110));
    let p4 = fsub(one, fdivn(fmul(t, p5), 72));
    let p3 = fsub(one, fdivn(fmul(t, p4), 42));
    let p2 = fsub(one, fdivn(fmul(t, p3), 20));
    let p1 = fsub(one, fdivn(fmul(t, p2), 6));
    fmul(r, p1)
}

fn cos_taylor(r: Fx) -> (c: Fx)
    ensures
        c@ == cos_taylor_s(r@),
{
    let one = Fx(SCALE);
    let t = fmul(r, r);
    let q7 = fsub(one, fdivn(t, 182));
    let q6 = fsub(one, fdivn(fmul(t, q7), 132));
    let q5 = fsub(one, fdivn(fmul(t, q6), 90));
    let q4 = fsub(one, fdivn(fmul(t, q5), 56));
    let q3 = fsub(one, fdivn(fmul(t, q4), 30));
    let q2 = fsub(one, fdivn(fmul(t, q3), 12));
    fsub(one, fdivn(fmul(t, q2), 2))
}

/// Sine and cosine of an angle in radians.  Beyond mirroring `sincos_s`
/// exactly, the returned pair always satisfies the Pythagorean bound and
/// its exact sum of squares never exceeds 1, which makes every rotation
/// matrix built from it orthonormal up to `EPS_UNIT`.
pub fn sincos(th: Fx) -> (r: (Fx, Fx))
    ensures
        (r.0@, r.1@) == sincos_s(th@),
        unit_defect_s(r.0@, r.1@) <= EPS_UNIT as int,
        r.0@ * r.0@ + r.1@ * r.1@ <= (SCALE as int) * (SCALE as int),
{
    let w = wrap_rad(th);
    let s0 = sin_taylor(w);
    let c0 = cos_taylor(w);
    let nn = fsqrt(fadd(fmul(s0, s0), fmul(c0, c0)));
    let fallback = (Fx(0), Fx(SCALE));
    proof {
        crate::fixed::lemma_smul_one(SCALE as int);
        assert((SCALE as int) * (SCALE as int) == 1_000_000_000_000_000_000int)
            by (nonlinear_arith)
            requires SCALE == 1_000_000_000i64;
    }
    if nn.0 == 0 {
        return fallback;
    }
    let s1 = fdiv(s0, nn);
    let c1 = fdiv(c0, nn);
    if !(-2 * SCALE <= s1.0 && s1.0 <= 2 * SCALE && -2 * SCALE <= c1.0 && c1.0 <= 2 * SCALE) {
        return fallback;
    }
    let mut sv = s1;
    let mut cv = c1;
    let mut fuel: u32 = 8;
    loop
        invariant
            -2 * SCALE <= sv.0 <= 2 * SCALE,
            -2 * SCALE <= cv.0 <= 2 * SCALE,
            fuel <= 8,
            shrink_pair_s(sv@, cv@, fuel as int) == shrink_pair_s(s1@, c1@, 8),
        ensures
            shrink_pair_s(sv@, cv@, fuel as int) == shrink_pair_s(s1@, c1@, 8),
            -2 * SCALE <= sv.0 <= 2 * SCALE,
            -2 * SCALE <= cv.0 <= 2 * SCALE,
            fuel == 0 || sv.0 as int * sv.0 as int + cv.0 as int * cv.0 as int <= (SCALE as int)
                * (SCALE as int),
        decreases fuel,
    {
        proof {
            lemma_square_small(sv.0 as int);
            lemma_square_small(cv.0 as int);
        }
        let ss: i64 = sv.0 * sv.0;
        let cc: i64 = cv.0 * cv.0;
        if !(fuel > 0 && ss + cc > SCALE * SCALE) {
            break;
        }
        if abs64(sv.0) >= abs64(cv.0) {
            sv = Fx(if sv.0 >= 0 { sv.0 - 1 } else { sv.0 + 1 });
        } else {
            cv = Fx(if cv.0 >= 0 { cv.0 - 1 } else { cv.0 + 1 });
        }
        fuel = fuel - 1;
    }
    proof {
        assert(shrink_pair_s(sv@, cv@, fuel as int) == (sv@, cv@));
        lemma_square_small(sv.0 as int);
        lemma_square_small(cv.0 as int);
    }
    let defect = fsub(fadd(fmul(sv, sv), fmul(cv, cv)), Fx(SCALE));
    let ss: i64 = sv.0 * sv.0;
    let cc: i64 = cv.0 * cv.0;
    if -EPS_UNIT <= defect.0 && defect.0 <= EPS_UNIT && ss + cc <= SCALE * SCALE {
        (sv, cv)
    } else {
        fallback
    }
}

/// The square of a value within 2.0 of zero fits comfortably.
proof fn lemma_square_small(x: int)
    by (nonlinear_arith)
    requires
        -2_000_000_000 <= x <= 2_000_000_000,
    ensures
        0 <= x * x <= 4_000_000_000_000_000_000,
{
}

/// Magnitude of a small raw value.
fn abs64(x: i64) -> (r: i64)
    requires
        -(MAX_RAW as int) <= x as int,
    ensures
        r as int == mag_s(x as int),
{
    if x < 0 { -x } else { x }
}

} // verus!
