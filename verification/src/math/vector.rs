//! 3-vectors and the usual operations on them.

use crate::fixed::{
    fadd, fdiv, fmul, fneg, fsub, fsqrt, sadd, sdiv, smul, sneg, ssqrt, ssub, Fx, SCALE,
};
use vstd::prelude::*;

verus! {

/// Spec-level image of a vector: its three coordinates as raw integers.
pub ghost struct V3 {
    pub x: int,
    pub y: int,
    pub z: int,
}

/// A 3-vector of fixed-point reals.
#[derive(Clone, Copy, Debug, PartialEq, Eq, Structural)]
pub struct Vector3 {
    pub x: Fx,
    pub y: Fx,
    pub z: Fx,
}

impl View for Vector3 {
    type V = V3;

    open spec fn view(&self) -> V3 {
        V3 { x: self.x@, y: self.y@, z: self.z@ }
    }
}

/// The vector whose view is `v` (exact for coordinates in the raw range).
pub open spec fn v3_of(v: V3) -> Vector3 {
    Vector3 { x: Fx(v.x as i64), y: Fx(v.y as i64), z: Fx(v.z as i64) }
}

/// A vector equals the spec-level vector built from its own view.
pub proof fn lemma_v3_of(a: Vector3, v: V3)
    requires
        a@ == v,
    ensures
        a == v3_of(v),
{
}

pub open spec fn vadd_s(a: V3, b: V3) -> V3 {
    V3 { x: sadd(a.x, b.x), y: sadd(a.y, b.y), z: sadd(a.z, b.z) }
}

pub open spec fn vsub_s(a: V3, b: V3) -> V3 {
    V3 { x: ssub(a.x, b.x), y: ssub(a.y, b.y), z: ssub(a.z, b.z) }
}

pub open spec fn vneg_s(a: V3) -> V3 {
    V3 { x: sneg(a.x), y: sneg(a.y), z: sneg(a.z) }
}

/// Each coordinate multiplied by the scalar `k`.
pub open spec fn vscale_s(a: V3, k: int) -> V3 {
    V3 { x: smul(a.x, k), y: smul(a.y, k), z: smul(a.z, k) }
}

/// Each coordinate divided by the scalar `k`.
pub open spec fn vdivs_s(a: V3, k: int) -> V3 {
    V3 { x: sdiv(a.x, k), y: sdiv(a.y, k), z: sdiv(a.z, k) }
}

/// Coordinate-wise product.
pub open spec fn vmulv_s(a: V3, b: V3) -> V3 {
    V3 { x: smul(a.x, b.x), y: smul(a.y, b.y), z: smul(a.z, b.z) }
}

pub open spec fn dot_s(a: V3, b: V3) -> int {
    sadd(sadd(smul(a.x, b.x), smul(a.y, b.y)), smul(a.z, b.z))
}

pub open spec fn cross_s(a: V3, b: V3) -> V3 {
    V3 {
        x: ssub(smul(a.y, b.z), smul(a.z, b.y)),
        y: ssub(smul(a.z, b.x), smul(a.x, b.z)),
        z: ssub(smul(a.x, b.y), smul(a.y, b.x)),
    }
}

pub open spec fn sqmag_s(a: V3) -> int {
    sadd(sadd(smul(a.x, a.x), smul(a.y, a.y)), smul(a.z, a.z))
}

pub open spec fn vmag_s(a: V3) -> int {
    ssqrt(sqmag_s(a))
}

/// The vector divided by its own magnitude (coordinate-wise; a zero
/// magnitude maps every coordinate to zero).
pub open spec fn normalized_s(a: V3) -> V3 {
    vdivs_s(a, vmag_s(a))
}

/// Projection of `b` onto the unit axis `a`.
pub open spec fn projection_s(a: V3, b: V3) -> V3 {
    vscale_s(a, dot_s(a, b))
}

/// Part of `b` perpendicular to the unit axis `a`.
pub open spec fn rejection_s(a: V3, b: V3) -> V3 {
    vsub_s(b, projection_s(a, b))
}

/// Reflection of `b` across the unit axis `a`.
pub open spec fn reflection_s(a: V3, b: V3) -> V3 {
    vsub_s(b, vscale_s(rejection_s(a, b), 2 * (SCALE as int)))
}

/// Every coordinate lies in the representable raw range.
pub open spec fn v3_in_range(v: V3) -> bool {
    &&& crate::fixed::mag_s(v.x) <= crate::fixed::MAX_RAW as int
    &&& crate::fixed::mag_s(v.y) <= crate::fixed::MAX_RAW as int
    &&& crate::fixed::mag_s(v.z) <= crate::fixed::MAX_RAW as int
}

/// The dot product is commutative.
pub proof fn lemma_dot_comm(a: V3, b: V3)
    ensures
        dot_s(a, b) == dot_s(b, a),
{
    crate::fixed::lemma_smul_comm(a.x, b.x);
    crate::fixed::lemma_smul_comm(a.y, b.y);
    crate::fixed::lemma_smul_comm(a.z, b.z);
}

/// Negating the left factor coordinate-wise negates the dot product
/// exactly (truncation toward zero is odd).
pub proof fn lemma_dot_negated_left(v1: V3, v2: V3, n: V3)
    requires
        v2.x == -v1.x,
        v2.y == -v1.y,
        v2.z == -v1.z,
    ensures
        dot_s(v2, n) == -dot_s(v1, n),
{
    crate::fixed::lemma_smul_neg_l(v1.x, n.x);
    crate::fixed::lemma_smul_neg_l(v1.y, n.y);
    crate::fixed::lemma_smul_neg_l(v1.z, n.z);
    crate::fixed::lemma_clip_neg(smul(v1.x, n.x) + smul(v1.y, n.y));
    crate::fixed::lemma_clip_neg(sadd(smul(v1.x, n.x), smul(v1.y, n.y)) + smul(v1.z, n.z));
}

/// Flipping a representable right factor negates the dot product exactly.
pub proof fn lemma_dot_vneg_right(a: V3, n: V3)
    requires
        v3_in_range(n),
    ensures
        dot_s(a, vneg_s(n)) == -dot_s(a, n),
{
    lemma_dot_comm(a, vneg_s(n));
    lemma_dot_negated_left(n, vneg_s(n), a);
    lemma_dot_comm(n, a);
}

/// Swapping the operands of a coordinate-wise difference flips every
/// coordinate exactly.
pub proof fn lemma_vsub_antisym_v(a: V3, b: V3)
    ensures
        vsub_s(a, b).x == -vsub_s(b, a).x,
        vsub_s(a, b).y == -vsub_s(b, a).y,
        vsub_s(a, b).z == -vsub_s(b, a).z,
{
    crate::fixed::lemma_clip_neg(b.x - a.x);
    crate::fixed::lemma_clip_neg(b.y - a.y);
    crate::fixed::lemma_clip_neg(b.z - a.z);
}

impl Vector3 {
    pub fn new(v1: Fx, v2: Fx, v3: Fx) -> (r: Vector3)
        ensures
            r@ == (V3 { x: v1@, y: v2@, z: v3@ }),
    {
        Vector3 { x: v1, y: v2, z: v3 }
    }

    pub fn from_array(data: [Fx; 3]) -> (r: Vector3)
        ensures
            r@ == (V3 { x: data@[0]@, y: data@[1]@, z: data@[2]@ }),
    {
        Vector3 { x: data[0], y: data[1], z: data[2] }
    }

    /// All three coordinates set to `v`.
    pub fn value(v: Fx) -> (r: Vector3)
        ensures
            r@ == (V3 { x: v@, y: v@, z: v@ }),
    {
        Vector3 { x: v, y: v, z: v }
    }

    pub fn zeros() -> (r: Vector3)
        ensures
            r@ == (V3 { x: 0, y: 0, z: 0 }),
    {
        Vector3::value(Fx(0))
    }

    pub fn ones() -> (r: Vector3)
        ensures
            r@ == (V3 { x: SCALE as int, y: SCALE as int, z: SCALE as int }),
    {
        Vector3::value(Fx(SCALE))
    }

    pub fn origin() -> (r: Vector3)
        ensures
            r@ == (V3 { x: 0, y: 0, z: 0 }),
    {
        Vector3::zeros()
    }

    pub fn x(&self) -> (r: Fx)
        ensures
            r@ == self@.x,
    {
        self.x
    }

    pub fn y(&self) -> (r: Fx)
        ensures
            r@ == self@.y,
    {
        self.y
    }

    pub fn z(&self) -> (r: Fx)
        ensures
            r@ == self@.z,
    {
        self.z
    }

    /// Coordinate `i` of the vector.
    pub fn at(&self, i: usize) -> (r: Fx)
        requires
            i < 3,
        ensures
            i == 0 ==> r@ == self@.x,
            i == 1 ==> r@ == self@.y,
            i == 2 ==> r@ == self@.z,
    {
        if i == 0 {
            self.x
        } else if i == 1 {
            self.y
        } else {
            self.z
        }
    }

    /// Overwrite coordinate `i`.
    pub fn set_at(&mut self, i: usize, v: Fx)
        requires
            i < 3,
        ensures
            i == 0 ==> final(self)@ == (V3 { x: v@, y: old(self)@.y, z: old(self)@.z }),
            i == 1 ==> final(self)@ == (V3 { x: old(self)@.x, y: v@, z: old(self)@.z }),
            i == 2 ==> final(self)@ == (V3 { x: old(self)@.x, y: old(self)@.y, z: v@ }),
    {
        if i == 0 {
            self.x = v;
        } else if i == 1 {
            self.y = v;
        } else {
            self.z = v;
        }
    }

    pub fn vadd(&self, o: &Vector3) -> (r: Vector3)
        ensures
            r@ == vadd_s(self@, o@),
    {
        Vector3 { x: fadd(self.x, o.x), y: fadd(self.y, o.y), z: fadd(self.z, o.z) }
    }

    pub fn vsub(&self, o: &Vector3) -> (r: Vector3)
        ensures
            r@ == vsub_s(self@, o@),
    {
        Vector3 { x: fsub(self.x, o.x), y: fsub(self.y, o.y), z: fsub(self.z, o.z) }
    }

    pub fn vneg(&self) -> (r: Vector3)
        ensures
            r@ == vneg_s(self@),
    {
        Vector3 { x: fneg(self.x), y: fneg(self.y), z: fneg(self.z) }
    }

    /// Scalar multiple.
    pub fn scale(&self, k: Fx) -> (r: Vector3)
        ensures
            r@ == vscale_s(self@, k@),
    {
        Vector3 { x: fmul(self.x, k), y: fmul(self.y, k), z: fmul(self.z, k) }
    }

    /// Scalar division.
    pub fn divs(&self, k: Fx) -> (r: Vector3)
        ensures
            r@ == vdivs_s(self@, k@),
    {
        Vector3 { x: fdiv(self.x, k), y: fdiv(self.y, k), z: fdiv(self.z, k) }
    }

    /// Coordinate-wise product.
    pub fn mulv(&self, o: &Vector3) -> (r: Vector3)
        ensures
            r@ == vmulv_s(self@, o@),
    {
        Vector3 { x: fmul(self.x, o.x), y: fmul(self.y, o.y), z: fmul(self.z, o.z) }
    }
}

pub fn squared_magnitude(v: &Vector3) -> (r: Fx)
    ensures
        r@ == sqmag_s(v@),
{
    fadd(fadd(fmul(v.x, v.x), fmul(v.y, v.y)), fmul(v.z, v.z))
}

pub fn magnitude(v: &Vector3) -> (r: Fx)
    ensures
        r@ == vmag_s(v@),
{
    fsqrt(squared_magnitude(v))
}

/// Divide `v` by its own magnitude in place.
pub fn normalize(v: &mut Vector3)
    ensures
        final(v)@ == normalized_s(old(v)@),
{
    let m = magnitude(v);
    *v = v.divs(m);
}

/// The vector divided by its own magnitude.
pub fn normalized(v: &Vector3) -> (r: Vector3)
    ensures
        r@ == normalized_s(v@),
{
    let l = magnitude(v);
    Vector3 { x: fdiv(v.x, l), y: fdiv(v.y, l), z: fdiv(v.z, l) }
}

pub fn dot(v1: &Vector3, v2: &Vector3) -> (r: Fx)
    ensures
        r@ == dot_s(v1@, v2@),
{
    fadd(fadd(fmul(v1.x, v2.x), fmul(v1.y, v2.y)), fmul(v1.z, v2.z))
}

pub fn cross(v1: &Vector3, v2: &Vector3) -> (r: Vector3)
    ensures
        r@ == cross_s(v1@, v2@),
{
    Vector3::new(
        fsub(fmul(v1.y, v2.z), fmul(v1.z, v2.y)),
        fsub(fmul(v1.z, v2.x), fmul(v1.x, v2.z)),
        fsub(fmul(v1.x, v2.y), fmul(v1.y, v2.x)),
    )
}

/// Project `b` onto the plane normal `a`; `a` is expected to be unit length.
pub fn projection(a: &Vector3, b: &Vector3) -> (r: Vector3)
    ensures
        r@ == projection_s(a@, b@),
{
    let d = dot(a, b);
    a.scale(d)
}

/// The part of `b` perpendicular to the unit axis `a`.
pub fn rejection(a: &Vector3, b: &Vector3) -> (r: Vector3)
    ensures
        r@ == rejection_s(a@, b@),
{
    b.vsub(&projection(a, b))
}

/// Reflection of `b` across the axis of symmetry `a`; `a` is unit length.
pub fn reflection(a: &Vector3, b: &Vector3) -> (r: Vector3)
    ensures
        r@ == reflection_s(a@, b@),
{
    let perp2 = rejection(a, b).scale(Fx(2 * SCALE));
    b.vsub(&perp2)
}

/// The six axis directions of the engine's left-handed frame.
pub struct Directions;

impl Directions {
    pub fn up() -> (r: Vector3)
        ensures
            r@ == (V3 { x: 0, y: SCALE as int, z: 0 }),
    {
        Vector3::new(Fx(0), Fx(SCALE), Fx(0))
    }

    pub fn down() -> (r: Vector3)
        ensures
            r@ == (V3 { x: 0, y: -(SCALE as int), z: 0 }),
    {
        Vector3::new(Fx(0), Fx(-SCALE), Fx(0))
    }

    pub fn forward() -> (r: Vector3)
        ensures
            r@ == (V3 { x: 0, y: 0, z: SCALE as int }),
    {
        Vector3::new(Fx(0), Fx(0), Fx(SCALE))
    }

    pub fn backward() -> (r: Vector3)
        ensures
            r@ == (V3 { x: 0, y: 0, z: -(SCALE as int) }),
    {
        Vector3::new(Fx(0), Fx(0), Fx(-SCALE))
    }

    pub fn left() -> (r: Vector3)
        ensures
            r@ == (V3 { x: -(SCALE as int), y: 0, z: 0 }),
    {
        Vector3::new(Fx(-SCALE), Fx(0), Fx(0))
    }

    pub fn right() -> (r: Vector3)
        ensures
            r@ == (V3 { x: SCALE as int, y: 0, z: 0 }),
    {
        Vector3::new(Fx(SCALE), Fx(0), Fx(0))
    }
}

} // verus!
