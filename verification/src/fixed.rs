//! Signed fixed-point scalars.
//!
//! A real number x is carried as the integer closest to `x * SCALE`, held in
//! an `i64`.  Every operation first computes the mathematically exact result
//! on wide integers, truncates the quotient toward zero where a division is
//! involved, and finally saturates into the symmetric range
//! `[-MAX_RAW, MAX_RAW]`.  Truncation toward zero makes every operation odd
//! in each argument (`(-a)*b == -(a*b)` exactly), which the geometric laws
//! of the engine rely on.

use vstd::prelude::*;

verus! {

/// Number of fixed-point fraction units in 1.0.
pub const SCALE: i64 = 1_000_000_000;

/// Largest raw value a fixed-point number may carry (the range is symmetric).
pub const MAX_RAW: i64 = 9_223_372_036_854_775_807;

/// A real number in signed fixed point: `Fx(v)` stands for v / SCALE.
#[derive(Clone, Copy, Debug, PartialEq, Eq, Structural)]
pub struct Fx(pub i64);

impl View for Fx {
    type V = int;

    open spec fn view(&self) -> int {
        self.0 as int
    }
}

/// Magnitude of an integer.
pub open spec fn mag_s(x: int) -> int {
    if x < 0 {
        -x
    } else {
        x
    }
}

/// Saturation into the symmetric representable range.
pub open spec fn clip_s(x: int) -> int {
    if x > MAX_RAW as int {
        MAX_RAW as int
    } else if x < -(MAX_RAW as int) {
        -(MAX_RAW as int)
    } else {
        x
    }
}

/// Quotient truncated toward zero; 0 when the divisor is 0.
pub open spec fn qdiv_s(n: int, d: int) -> int {
    if d == 0 {
        0
    } else if (n < 0) == (d < 0) {
        mag_s(n) / mag_s(d)
    } else {
        -(mag_s(n) / mag_s(d))
    }
}

/// Fixed-point sum.
pub open spec fn sadd(a: int, b: int) -> int {
    clip_s(a + b)
}

/// Fixed-point difference.
pub open spec fn ssub(a: int, b: int) -> int {
    clip_s(a - b)
}

/// Fixed-point negation.
pub open spec fn sneg(a: int) -> int {
    clip_s(-a)
}

/// Fixed-point product.
pub open spec fn smul(a: int, b: int) -> int {
    clip_s(qdiv_s(a * b, SCALE as int))
}

/// Fixed-point quotient.
pub open spec fn sdiv(a: int, b: int) -> int {
    clip_s(qdiv_s(a * (SCALE as int), b))
}

/// Division of a fixed-point value by a plain integer.
pub open spec fn sdivi(a: int, n: int) -> int {
    clip_s(qdiv_s(a, n))
}

/// Fixed-point absolute value.
pub open spec fn sabs(a: int) -> int {
    clip_s(mag_s(a))
}

/// The smaller of two values.
pub open spec fn smin(a: int, b: int) -> int {
    if a < b {
        a
    } else {
        b
    }
}

/// The larger of two values.
pub open spec fn smax(a: int, b: int) -> int {
    if a > b {
        a
    } else {
        b
    }
}

/// Clamp into `[lo, hi]`.
pub open spec fn sclamp(x: int, lo: int, hi: int) -> int {
    if x < lo {
        lo
    } else if x > hi {
        hi
    } else {
        x
    }
}

/// 1.0 for a positive value, -1.0 otherwise.
pub open spec fn ssign(x: int) -> int {
    if x > 0 {
        SCALE as int
    } else {
        -(SCALE as int)
    }
}

/// `r` is the integer square root of `x`.
pub open spec fn is_isqrt(x: int, r: int) -> bool {
    0 <= r && r * r <= x && x < (r + 1) * (r + 1)
}

/// The integer square root of a non-negative integer.
pub open spec fn isqrt_s(x: int) -> int {
    choose|r: int| #[trigger] is_isqrt(x, r)
}

/// Fixed-point square root; 0 for non-positive arguments.
pub open spec fn ssqrt(a: int) -> int {
    if a <= 0 {
        0
    } else {
        isqrt_s(a * (SCALE as int))
    }
}

pub proof fn lemma_isqrt_unique(x: int, r1: int, r2: int)
    by (nonlinear_arith)
    requires
        is_isqrt(x, r1),
        is_isqrt(x, r2),
    ensures
        r1 == r2,
{
}

/// Every non-negative integer has an integer square root.
pub proof fn lemma_isqrt_exists(x: int)
    requires
        x >= 0,
    ensures
        exists|r: int| is_isqrt(x, r),
    decreases x,
{
    if x == 0 {
        assert(is_isqrt(0, 0)) by (nonlinear_arith);
    } else {
        lemma_isqrt_exists(x - 1);
        let r0 = choose|r: int| #[trigger] is_isqrt(x - 1, r);
        if (r0 + 1) * (r0 + 1) <= x {
            assert(is_isqrt(x, r0 + 1)) by (nonlinear_arith)
                requires
                    is_isqrt(x - 1, r0),
                    (r0 + 1) * (r0 + 1) <= x,
            ;
        } else {
            assert(is_isqrt(x, r0));
        }
    }
}

/// Any integer satisfying the square-root characterization is `isqrt_s`.
pub proof fn lemma_isqrt_agree(x: int, r: int)
    requires
        is_isqrt(x, r),
    ensures
        isqrt_s(x) == r,
{
    assert(is_isqrt(x, isqrt_s(x))) by {
        assert(exists|q: int| #[trigger] is_isqrt(x, q));
    }
    lemma_isqrt_unique(x, isqrt_s(x), r);
}

proof fn lemma_mul_i64_bound(x: int, y: int)
    by (nonlinear_arith)
    requires
        -0x8000_0000_0000_0000 <= x <= 0x7fff_ffff_ffff_ffff,
        -0x8000_0000_0000_0000 <= y <= 0x7fff_ffff_ffff_ffff,
    ensures
        mag_s(x * y) <= 0x4000_0000_0000_0000_0000_0000_0000_0000,
{
}

pub(crate) fn clip128(x: i128) -> (r: i64)
    ensures
        r as int == clip_s(x as int),
{
    if x > MAX_RAW as i128 {
        MAX_RAW
    } else if x < -(MAX_RAW as i128) {
        -MAX_RAW
    } else {
        x as i64
    }
}

pub(crate) fn qdiv128(n: i128, d: i128) -> (r: i128)
    requires
        n as int > i128::MIN,
        d as int > i128::MIN,
    ensures
        r as int == qdiv_s(n as int, d as int),
{
    if d == 0 {
        0
    } else {
        let na: i128 = if n < 0 { -n } else { n };
        let da: i128 = if d < 0 { -d } else { d };
        let q: i128 = na / da;
        if (n < 0) != (d < 0) { -q } else { q }
    }
}

/// Quotient rounded to the nearest integer, halves away from zero; 0 when
/// the divisor is 0.
pub open spec fn qdivr_s(n: int, d: int) -> int {
    if d == 0 {
        0
    } else if (n < 0) == (d < 0) {
        (mag_s(n) + mag_s(d) / 2) / mag_s(d)
    } else {
        -((mag_s(n) + mag_s(d) / 2) / mag_s(d))
    }
}

/// Fixed-point quotient rounded to nearest.
pub open spec fn sdivr(a: int, b: int) -> int {
    clip_s(qdivr_s(a * (SCALE as int), b))
}

pub(crate) fn qdivr128(n: i128, d: i128) -> (r: i128)
    requires
        mag_s(n as int) < 0x4000_0000_0000_0000_0000_0000_0000_0000,
        mag_s(d as int) < 0x4000_0000_0000_0000_0000_0000_0000_0000,
    ensures
        r as int == qdivr_s(n as int, d as int),
{
    if d == 0 {
        0
    } else {
        let na: i128 = if n < 0 { -n } else { n };
        let da: i128 = if d < 0 { -d } else { d };
        let q: i128 = (na + da / 2) / da;
        if (n < 0) != (d < 0) { -q } else { q }
    }
}

/// Quotient with rescaling, rounded to nearest; 0 when `b` is zero.
pub fn fdivr(a: Fx, b: Fx) -> (r: Fx)
    ensures
        r@ == sdivr(a@, b@),
{
    proof {
        lemma_mul_i64_bound(a.0 as int, SCALE as int);
    }
    let n: i128 = (a.0 as i128) * (SCALE as i128);
    Fx(clip128(qdivr128(n, b.0 as i128)))
}

/// Sum, saturating at the range ends.
pub fn fadd(a: Fx, b: Fx) -> (r: Fx)
    ensures
        r@ == sadd(a@, b@),
{
    let s: i128 = a.0 as i128 + b.0 as i128;
    Fx(clip128(s))
}

/// Difference, saturating at the range ends.
pub fn fsub(a: Fx, b: Fx) -> (r: Fx)
    ensures
        r@ == ssub(a@, b@),
{
    let s: i128 = a.0 as i128 - b.0 as i128;
    Fx(clip128(s))
}

/// Negation, saturating at the range ends.
pub fn fneg(a: Fx) -> (r: Fx)
    ensures
        r@ == sneg(a@),
{
    let s: i128 = -(a.0 as i128);
    Fx(clip128(s))
}

/// Product with rescaling; the quotient is truncated toward zero.
pub fn fmul(a: Fx, b: Fx) -> (r: Fx)
    ensures
        r@ == smul(a@, b@),
{
    proof {
        lemma_mul_i64_bound(a.0 as int, b.0 as int);
    }
    let p: i128 = (a.0 as i128) * (b.0 as i128);
    Fx(clip128(qdiv128(p, SCALE as i128)))
}

/// Quotient with rescaling, truncated toward zero; 0 when `b` is zero.
pub fn fdiv(a: Fx, b: Fx) -> (r: Fx)
    ensures
        r@ == sdiv(a@, b@),
{
    proof {
        lemma_mul_i64_bound(a.0 as int, SCALE as int);
    }
    let n: i128 = (a.0 as i128) * (SCALE as i128);
    Fx(clip128(qdiv128(n, b.0 as i128)))
}

/// Division by a plain integer, truncated toward zero; 0 when `n` is zero.
pub fn fdivn(a: Fx, n: i64) -> (r: Fx)
    ensures
        r@ == sdivi(a@, n as int),
{
    Fx(clip128(qdiv128(a.0 as i128, n as i128)))
}

/// Absolute value, saturating for the most negative raw value.
pub fn fabs(a: Fx) -> (r: Fx)
    ensures
        r@ == sabs(a@),
{
    let s: i128 = if a.0 < 0 { -(a.0 as i128) } else { a.0 as i128 };
    Fx(clip128(s))
}

/// The smaller of two values.
pub fn fmin(a: Fx, b: Fx) -> (r: Fx)
    ensures
        r@ == smin(a@, b@),
{
    if a.0 < b.0 { a } else { b }
}

/// The larger of two values.
pub fn fmax(a: Fx, b: Fx) -> (r: Fx)
    ensures
        r@ == smax(a@, b@),
{
    if a.0 > b.0 { a } else { b }
}

/// Clamp into `[lo, hi]`.
pub fn fclamp(x: Fx, lo: Fx, hi: Fx) -> (r: Fx)
    ensures
        r@ == sclamp(x@, lo@, hi@),
{
    if x.0 < lo.0 {
        lo
    } else if x.0 > hi.0 {
        hi
    } else {
        x
    }
}

/// 1.0 for a positive value, -1.0 otherwise.
pub fn fsign(x: Fx) -> (r: Fx)
    ensures
        r@ == ssign(x@),
{
    if x.0 > 0 { Fx(SCALE) } else { Fx(-SCALE) }
}

proof fn lemma_isqrt_step(x: int, lo: int, mid: int, hi: int)
    by (nonlinear_arith)
    requires
        0 <= lo < hi,
        lo <= mid < hi,
        lo * lo <= x,
        x < hi * hi,
    ensures
        mid * mid <= x ==> mid * mid <= x && x < hi * hi,
        !(mid * mid <= x) ==> lo * lo <= x && x < mid * mid,
{
}

/// Square root of a non-negative value; 0 for non-positive arguments.
/// The result `r` satisfies `r*r <= a*SCALE < (r+1)*(r+1)` on its raw units,
/// which pins it exactly.
pub fn fsqrt(a: Fx) -> (r: Fx)
    ensures
        r@ == ssqrt(a@),
{
    if a.0 <= 0 {
        return Fx(0);
    }
    let x: u128 = (a.0 as u128) * (SCALE as u128);
    proof {
        assert((a.0 as u128) * (SCALE as u128) < 0x4000_0000_0000_0000_0000_0000u128) by (nonlinear_arith)
            requires 0 < a.0 as u128 <= 0x7fff_ffff_ffff_ffffu128 && SCALE == 1_000_000_000;
    }
    let mut lo: u128 = 0;
    let mut hi: u128 = 0x1_0000_0000_0000u128;  // 2^48; (2^48)^2 = 2^96 exceeds any a * SCALE
    proof {
        assert(x < hi * hi) by (nonlinear_arith)
            requires x < 0x4000_0000_0000_0000_0000_0000u128 && hi == 0x1_0000_0000_0000u128;
    }
    while hi - lo > 1
        invariant
            0 <= lo < hi <= 0x1_0000_0000_0000u128,
            (lo * lo) as int <= x as int,
            (x as int) < (hi as int) * (hi as int),
        decreases hi - lo,
    {
        let mid: u128 = lo + (hi - lo) / 2;
        proof {
            lemma_isqrt_step(x as int, lo as int, mid as int, hi as int);
            assert(mid * mid <= 0x1_0000_0000_0000_0000_0000_0000u128) by (nonlinear_arith)
                requires mid <= 0x1_0000_0000_0000u128;
        }
        if mid * mid <= x {
            lo = mid;
        } else {
            hi = mid;
        }
    }
    proof {
        assert(hi == lo + 1);
        assert(is_isqrt(x as int, lo as int));
        lemma_isqrt_agree(x as int, lo as int);
    }
    Fx(lo as i64)
}

/// Truncation toward zero is odd: flipping the dividend flips the quotient.
pub proof fn lemma_qdiv_neg(n: int, d: int)
    ensures
        qdiv_s(-n, d) == -qdiv_s(n, d),
{
}

/// Saturation is odd around zero.
pub proof fn lemma_clip_neg(x: int)
    ensures
        clip_s(-x) == -clip_s(x),
{
}

/// The fixed-point product is odd in its left argument.
pub proof fn lemma_smul_neg_l(a: int, b: int)
    ensures
        smul(-a, b) == -smul(a, b),
{
    assert((-a) * b == -(a * b)) by (nonlinear_arith);
    lemma_qdiv_neg(a * b, SCALE as int);
    lemma_clip_neg(qdiv_s(a * b, SCALE as int));
}

/// The fixed-point product is commutative.
pub proof fn lemma_smul_comm(a: int, b: int)
    ensures
        smul(a, b) == smul(b, a),
{
    assert(a * b == b * a) by (nonlinear_arith);
}

/// Multiplying by 1.0 is the identity on representable values.
pub proof fn lemma_smul_one(x: int)
    requires
        -(MAX_RAW as int) <= x <= MAX_RAW as int,
    ensures
        smul(SCALE as int, x) == x,
{
    assert((SCALE as int) * x == x * (SCALE as int)) by (nonlinear_arith);
    assert(mag_s(x * (SCALE as int)) == mag_s(x) * (SCALE as int)) by (nonlinear_arith);
    assert(mag_s(x) * (SCALE as int) / (SCALE as int) == mag_s(x)) by {
        vstd::arithmetic::div_mod::lemma_div_by_multiple(mag_s(x), SCALE as int);
    }
}

} // verus!
