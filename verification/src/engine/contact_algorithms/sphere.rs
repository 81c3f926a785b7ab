//! Sphere-sphere contact.

use super::{CiS, ContactInformations};
use crate::engine::shapes::Sphere;
use crate::fixed::{fabs, fadd, fmul, fsub, mag_s, sabs, sadd, smul, ssub, Fx, SCALE};
use crate::math::vector::{magnitude, sqmag_s, vadd_s, vdivs_s, vmag_s, vscale_s, vsub_s, Vector3, V3};
use vstd::prelude::*;

verus! {

/// The single contact point of two overlapping spheres: on the axis from
/// the first center toward the second, halfway into the overlap.
pub open spec fn sphere_sphere_contact_s(r1: int, c1: V3, r2: int, c2: V3) -> CiS {
    let rsum = sadd(r1, r2);
    let diff = vsub_s(c2, c1);
    let d = vmag_s(diff);
    let n = vdivs_s(diff, d);
    let penetration = smul(sabs(ssub(d, rsum)), (SCALE as int) / 2);
    let dtp = ssub(r1, penetration);
    CiS {
        points: seq![vadd_s(c1, vscale_s(n, dtp))],
        normal_a_to_b: n,
        penetration_distance: penetration,
    }
}

/// A non-negative numerator divided by a positive denominator gives a
/// non-negative truncating quotient, monotone in the numerator.
proof fn lemma_qdiv_pos(p: int, m: int)
    by (nonlinear_arith)
    requires
        p >= 0,
        m > 0,
    ensures
        crate::fixed::qdiv_s(p, m) >= 0,
        crate::fixed::qdiv_s(p, m) == p / m,
{
}

/// Multiplying a coordinate by its own normalized image never gives a
/// negative fixed-point product.
proof fn lemma_term_nonneg(u: int, m: int)
    requires
        m > 0,
    ensures
        smul(u, crate::fixed::sdiv(u, m)) >= 0,
{
    let q = crate::fixed::qdiv_s(u * (crate::fixed::SCALE as int), m);
    if u >= 0 {
        assert(u * (crate::fixed::SCALE as int) >= 0) by (nonlinear_arith)
            requires u >= 0 && crate::fixed::SCALE == 1_000_000_000i64;
        lemma_qdiv_pos(u * (crate::fixed::SCALE as int), m);
        assert(u * crate::fixed::clip_s(q) >= 0) by (nonlinear_arith)
            requires u >= 0 && crate::fixed::clip_s(q) >= 0;
        lemma_qdiv_pos(u * crate::fixed::clip_s(q), crate::fixed::SCALE as int);
    } else {
        assert(u * (crate::fixed::SCALE as int) < 0) by (nonlinear_arith)
            requires u < 0 && crate::fixed::SCALE == 1_000_000_000i64;
        assert(q <= 0);
        assert(u * crate::fixed::clip_s(q) >= 0) by (nonlinear_arith)
            requires u < 0 && crate::fixed::clip_s(q) <= 0;
        lemma_qdiv_pos(u * crate::fixed::clip_s(q), crate::fixed::SCALE as int);
    }
}

/// The normal of a sphere-sphere contact points from the first center
/// toward the second: its dot product with the center difference is
/// positive whenever the centers differ by at least one ten-thousandth
/// in some coordinate.
pub proof fn lemma_sphere_sphere_normal_direction(r1: int, c1: V3, r2: int, c2: V3)
    requires
        ({
            let d = vsub_s(c2, c1);
            mag_s(d.x) >= 100_000 || mag_s(d.y) >= 100_000 || mag_s(d.z) >= 100_000
        }),
    ensures
        ({
            let d = vsub_s(c2, c1);
            let n = sphere_sphere_contact_s(r1, c1, r2, c2).normal_a_to_b;
            crate::math::vector::dot_s(d, n) > 0
        }),
{
    let sc = crate::fixed::SCALE as int;
    let d = vsub_s(c2, c1);
    let x = sqmag_s(d);
    let m = vmag_s(d);
    let n = vdivs_s(d, m);
    let dm = if mag_s(d.x) >= mag_s(d.y) && mag_s(d.x) >= mag_s(d.z) {
        mag_s(d.x)
    } else if mag_s(d.y) >= mag_s(d.z) {
        mag_s(d.y)
    } else {
        mag_s(d.z)
    };
    assert(dm >= 100_000);

    // each coordinate's fixed-point square is between 0 and the largest one
    assert forall|u: int| mag_s(u) <= dm implies 0 <= smul(u, u) && smul(u, u) <= crate::fixed::qdiv_s(dm * dm, sc) by {
        assert(0 <= u * u <= dm * dm) by (nonlinear_arith)
            requires mag_s(u) <= dm;
        lemma_qdiv_pos(u * u, sc);
        lemma_qdiv_pos(dm * dm, sc);
        assert(u * u / sc <= dm * dm / sc) by (nonlinear_arith)
            requires 0 <= u * u <= dm * dm && sc == 1_000_000_000int;
        assert(crate::fixed::clip_s(crate::fixed::qdiv_s(u * u, sc)) == crate::fixed::qdiv_s(
            u * u,
            sc,
        ) || crate::fixed::clip_s(crate::fixed::qdiv_s(u * u, sc)) == crate::fixed::MAX_RAW as int);
    }
    let q = crate::fixed::qdiv_s(dm * dm, sc);
    let dmx0 = if mag_s(d.x) >= mag_s(d.y) && mag_s(d.x) >= mag_s(d.z) {
        d.x
    } else if mag_s(d.y) >= mag_s(d.z) {
        d.y
    } else {
        d.z
    };
    assert(smul(dmx0, dmx0) == crate::fixed::clip_s(q)) by {
        assert(dmx0 * dmx0 == dm * dm) by (nonlinear_arith)
            requires mag_s(dmx0) == dm;
    }
    assert(q >= 10) by (nonlinear_arith)
        requires
            q == dm * dm / sc,
            dm >= 100_000,
            sc == 1_000_000_000int,
    ;
    assert(q <= dm * dm / sc);
    assert(crate::fixed::clip_s(q) >= 10);
    assert(x >= 10);
    assert(x <= 3 * q);

    // the magnitude is at most twice the largest coordinate
    assert(x > 0);
    assert(m == crate::fixed::isqrt_s(x * sc));
    assert(x * sc > 0) by (nonlinear_arith)
        requires x >= 10 && sc == 1_000_000_000int;
    assert(crate::fixed::is_isqrt(x * sc, m)) by {
        assert(exists|r: int| #[trigger] crate::fixed::is_isqrt(x * sc, r)) by {
            crate::fixed::lemma_isqrt_exists(x * sc);
        }
    }
    assert(m <= 2 * dm) by (nonlinear_arith)
        requires
            crate::fixed::is_isqrt(x * sc, m),
            0 <= x <= 3 * q,
            q == dm * dm / sc,
            dm >= 100_000,
            sc == 1_000_000_000int,
    ;
    assert(m >= 1) by (nonlinear_arith)
        requires
            crate::fixed::is_isqrt(x * sc, m),
            x >= 10,
            sc == 1_000_000_000int,
    ;

    // the dominant term of the dot product is at least one raw unit
    let dmx = if mag_s(d.x) >= mag_s(d.y) && mag_s(d.x) >= mag_s(d.z) {
        d.x
    } else if mag_s(d.y) >= mag_s(d.z) {
        d.y
    } else {
        d.z
    };
    assert(mag_s(dmx) == dm);
    let nq = crate::fixed::qdiv_s(dmx * sc, m);
    assert(nq == if (dmx >= 0) { mag_s(dmx) * sc / m } else { -(mag_s(dmx) * sc / m) }) by {
        assert(mag_s(dmx * sc) == mag_s(dmx) * sc) by (nonlinear_arith)
            requires sc == 1_000_000_000int;
        assert((dmx * sc < 0) == (dmx < 0)) by (nonlinear_arith)
            requires sc == 1_000_000_000int;
    }
    assert(mag_s(dmx) * sc / m >= sc / 2) by (nonlinear_arith)
        requires
            mag_s(dmx) == dm,
            m <= 2 * dm,
            m >= 1,
            dm >= 100_000,
            sc == 1_000_000_000int,
    ;
    let nc = crate::fixed::clip_s(nq);
    assert(mag_s(nc) >= sc / 2 && (nc >= 0) == (nq >= 0));
    let term = smul(dmx, nc);
    assert(dmx * nc >= dm * (sc / 2)) by (nonlinear_arith)
        requires
            mag_s(nc) >= sc / 2,
            mag_s(dmx) == dm,
            (nc >= 0) == (nq >= 0),
            nq == if (dmx >= 0) { mag_s(dmx) * sc / m } else { -(mag_s(dmx) * sc / m) },
            mag_s(dmx) * sc / m >= sc / 2,
            dm >= 100_000,
            sc == 1_000_000_000int,
    ;
    assert(crate::fixed::qdiv_s(dmx * nc, sc) == dmx * nc / sc) by {
        lemma_qdiv_pos(dmx * nc, sc);
        assert(dmx * nc >= 0) by (nonlinear_arith)
            requires dmx * nc >= dm * (sc / 2) && dm >= 100_000 && sc == 1_000_000_000int;
    }
    assert(term >= 2) by (nonlinear_arith)
        requires
            term == crate::fixed::clip_s(crate::fixed::qdiv_s(dmx * nc, sc)),
            crate::fixed::qdiv_s(dmx * nc, sc) == dmx * nc / sc,
            dmx * nc >= dm * (sc / 2),
            dm >= 100_000,
            sc == 1_000_000_000int,
            crate::fixed::MAX_RAW == 9_223_372_036_854_775_807i64,
    ;

    // every term is non-negative, so the sum exceeds zero
    lemma_term_nonneg(d.x, m);
    lemma_term_nonneg(d.y, m);
    lemma_term_nonneg(d.z, m);
    assert(crate::math::vector::dot_s(d, n) > 0);
}

/// Contact of two overlapping spheres; the normal points from `s1` to `s2`.
pub fn sphere_sphere(s1: &Sphere, s2: &Sphere) -> (r: ContactInformations)
    ensures
        r@ == sphere_sphere_contact_s(s1.radius@, s1.position@, s2.radius@, s2.position@),
{
    let rsum = fadd(s1.radius, s2.radius);
    let diff = s2.position.vsub(&s1.position);
    let d = magnitude(&diff);
    let n = diff.divs(d);
    let penetration_distance = fmul(fabs(fsub(d, rsum)), Fx(SCALE / 2));
    let dtp = fsub(s1.radius, penetration_distance);
    let p = s1.position.vadd(&n.scale(dtp));
    let mut points: Vec<Vector3> = Vec::new();
    points.push(p);
    let r = ContactInformations { points, normal_a_to_b: n, penetration_distance };
    proof {
        assert(r@.points =~= seq![p@]);
    }
    r
}

} // verus!
