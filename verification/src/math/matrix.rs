//! 3x3 matrices: rotation carriers with multiplication, transposition,
//! determinant and inversion by the adjugate.

use crate::fixed::{fdiv, fmul, fsub, sdiv, smul, ssub, Fx, SCALE};
use crate::math::vector::{dot, dot_s, Vector3, V3};
use vstd::prelude::*;

verus! {

/// Spec-level image of a matrix: three rows of raw coordinates.
pub ghost struct M3 {
    pub r0: V3,
    pub r1: V3,
    pub r2: V3,
}

/// A 3x3 matrix of fixed-point reals, stored by rows.
#[derive(Clone, Copy, Debug, PartialEq, Eq, Structural)]
pub struct Mat3 {
    r0: Vector3,
    r1: Vector3,
    r2: Vector3,
}

impl View for Mat3 {
    type V = M3;

    closed spec fn view(&self) -> M3 {
        M3 { r0: self.r0@, r1: self.r1@, r2: self.r2@ }
    }
}

/// The matrix whose view is `m` (exact for entries in the raw range).
pub closed spec fn m3_of(m: M3) -> Mat3 {
    Mat3 {
        r0: crate::math::vector::v3_of(m.r0),
        r1: crate::math::vector::v3_of(m.r1),
        r2: crate::math::vector::v3_of(m.r2),
    }
}

/// A matrix equals the spec-level matrix built from its own view.
pub proof fn lemma_m3_of(a: Mat3, m: M3)
    requires
        a@ == m,
    ensures
        a == m3_of(m),
{
    crate::math::vector::lemma_v3_of(a.r0, m.r0);
    crate::math::vector::lemma_v3_of(a.r1, m.r1);
    crate::math::vector::lemma_v3_of(a.r2, m.r2);
}

pub open spec fn row_s(m: M3, i: int) -> V3 {
    if i == 0 {
        m.r0
    } else if i == 1 {
        m.r1
    } else {
        m.r2
    }
}

pub open spec fn col_s(m: M3, i: int) -> V3 {
    V3 { x: at_s(m, 0, i), y: at_s(m, 1, i), z: at_s(m, 2, i) }
}

pub open spec fn at_s(m: M3, r: int, c: int) -> int {
    let row = row_s(m, r);
    if c == 0 {
        row.x
    } else if c == 1 {
        row.y
    } else {
        row.z
    }
}

pub open spec fn mid_s() -> M3 {
    M3 {
        r0: V3 { x: SCALE as int, y: 0, z: 0 },
        r1: V3 { x: 0, y: SCALE as int, z: 0 },
        r2: V3 { x: 0, y: 0, z: SCALE as int },
    }
}

pub open spec fn mzero_s() -> M3 {
    M3 { r0: V3 { x: 0, y: 0, z: 0 }, r1: V3 { x: 0, y: 0, z: 0 }, r2: V3 { x: 0, y: 0, z: 0 } }
}

pub open spec fn mdiag_s(v: V3) -> M3 {
    M3 {
        r0: V3 { x: v.x, y: 0, z: 0 },
        r1: V3 { x: 0, y: v.y, z: 0 },
        r2: V3 { x: 0, y: 0, z: v.z },
    }
}

pub open spec fn transposed_s(m: M3) -> M3 {
    M3 { r0: col_s(m, 0), r1: col_s(m, 1), r2: col_s(m, 2) }
}

pub open spec fn mat_mul_s(a: M3, b: M3) -> M3 {
    M3 {
        r0: V3 {
            x: dot_s(a.r0, col_s(b, 0)),
            y: dot_s(a.r0, col_s(b, 1)),
            z: dot_s(a.r0, col_s(b, 2)),
        },
        r1: V3 {
            x: dot_s(a.r1, col_s(b, 0)),
            y: dot_s(a.r1, col_s(b, 1)),
            z: dot_s(a.r1, col_s(b, 2)),
        },
        r2: V3 {
            x: dot_s(a.r2, col_s(b, 0)),
            y: dot_s(a.r2, col_s(b, 1)),
            z: dot_s(a.r2, col_s(b, 2)),
        },
    }
}

pub open spec fn mat_vec_s(m: M3, v: V3) -> V3 {
    V3 { x: dot_s(m.r0, v), y: dot_s(m.r1, v), z: dot_s(m.r2, v) }
}

pub open spec fn mat_scale_s(m: M3, k: int) -> M3 {
    M3 {
        r0: V3 { x: smul(m.r0.x, k), y: smul(m.r0.y, k), z: smul(m.r0.z, k) },
        r1: V3 { x: smul(m.r1.x, k), y: smul(m.r1.y, k), z: smul(m.r1.z, k) },
        r2: V3 { x: smul(m.r2.x, k), y: smul(m.r2.y, k), z: smul(m.r2.z, k) },
    }
}

/// The 2x2 block left after removing row `r` and column `c`, row-major.
pub open spec fn cut_s(m: M3, r: int, c: int) -> (int, int, int, int) {
    let r1 = if r == 0 { 1int } else { 0int };
    let r2 = if r == 2 { 1int } else { 2int };
    let c1 = if c == 0 { 1int } else { 0int };
    let c2 = if c == 2 { 1int } else { 2int };
    (at_s(m, r1, c1), at_s(m, r1, c2), at_s(m, r2, c1), at_s(m, r2, c2))
}

pub open spec fn det2_s(e: (int, int, int, int)) -> int {
    ssub(smul(e.0, e.3), smul(e.1, e.2))
}

pub open spec fn det_s(m: M3) -> int {
    crate::fixed::sadd(
        ssub(smul(det2_s(cut_s(m, 0, 0)), at_s(m, 0, 0)), smul(det2_s(cut_s(m, 0, 1)), at_s(m, 0, 1))),
        smul(det2_s(cut_s(m, 0, 2)), at_s(m, 0, 2)),
    )
}

pub open spec fn minors_s(m: M3) -> M3 {
    M3 {
        r0: V3 {
            x: det2_s(cut_s(m, 0, 0)),
            y: det2_s(cut_s(m, 0, 1)),
            z: det2_s(cut_s(m, 0, 2)),
        },
        r1: V3 {
            x: det2_s(cut_s(m, 1, 0)),
            y: det2_s(cut_s(m, 1, 1)),
            z: det2_s(cut_s(m, 1, 2)),
        },
        r2: V3 {
            x: det2_s(cut_s(m, 2, 0)),
            y: det2_s(cut_s(m, 2, 1)),
            z: det2_s(cut_s(m, 2, 2)),
        },
    }
}

/// Minors with the checkerboard of signs applied.
pub open spec fn cofactor_s(minors: M3) -> M3 {
    M3 {
        r0: V3 {
            x: smul(minors.r0.x, SCALE as int),
            y: smul(minors.r0.y, -(SCALE as int)),
            z: smul(minors.r0.z, SCALE as int),
        },
        r1: V3 {
            x: smul(minors.r1.x, -(SCALE as int)),
            y: smul(minors.r1.y, SCALE as int),
            z: smul(minors.r1.z, -(SCALE as int)),
        },
        r2: V3 {
            x: smul(minors.r2.x, SCALE as int),
            y: smul(minors.r2.y, -(SCALE as int)),
            z: smul(minors.r2.z, SCALE as int),
        },
    }
}

pub open spec fn inverse_s(m: M3) -> M3 {
    mat_scale_s(transposed_s(cofactor_s(minors_s(m))), sdiv(SCALE as int, det_s(m)))
}

impl Mat3 {
    pub fn identity() -> (r: Mat3)
        ensures
            r@ == mid_s(),
    {
        Mat3 {
            r0: Vector3::new(Fx(SCALE), Fx(0), Fx(0)),
            r1: Vector3::new(Fx(0), Fx(SCALE), Fx(0)),
            r2: Vector3::new(Fx(0), Fx(0), Fx(SCALE)),
        }
    }

    pub fn zero() -> (r: Mat3)
        ensures
            r@ == mzero_s(),
    {
        Mat3 { r0: Vector3::zeros(), r1: Vector3::zeros(), r2: Vector3::zeros() }
    }

    /// Every entry set to `v`.
    pub fn value(v: Fx) -> (r: Mat3)
        ensures
            r@ == (M3 {
                r0: V3 { x: v@, y: v@, z: v@ },
                r1: V3 { x: v@, y: v@, z: v@ },
                r2: V3 { x: v@, y: v@, z: v@ },
            }),
    {
        Mat3 { r0: Vector3::value(v), r1: Vector3::value(v), r2: Vector3::value(v) }
    }

    pub fn diag(v: Vector3) -> (r: Mat3)
        ensures
            r@ == mdiag_s(v@),
    {
        Mat3 {
            r0: Vector3::new(v.x, Fx(0), Fx(0)),
            r1: Vector3::new(Fx(0), v.y, Fx(0)),
            r2: Vector3::new(Fx(0), Fx(0), v.z),
        }
    }

    pub fn from_array(arr: [[Fx; 3]; 3]) -> (r: Mat3)
        ensures
            r@ == (M3 {
                r0: V3 { x: arr@[0]@[0]@, y: arr@[0]@[1]@, z: arr@[0]@[2]@ },
                r1: V3 { x: arr@[1]@[0]@, y: arr@[1]@[1]@, z: arr@[1]@[2]@ },
                r2: V3 { x: arr@[2]@[0]@, y: arr@[2]@[1]@, z: arr@[2]@[2]@ },
            }),
    {
        Mat3 {
            r0: Vector3::new(arr[0][0], arr[0][1], arr[0][2]),
            r1: Vector3::new(arr[1][0], arr[1][1], arr[1][2]),
            r2: Vector3::new(arr[2][0], arr[2][1], arr[2][2]),
        }
    }

    pub fn from_rows(r0: Vector3, r1: Vector3, r2: Vector3) -> (r: Mat3)
        ensures
            r@ == (M3 { r0: r0@, r1: r1@, r2: r2@ }),
    {
        Mat3 { r0, r1, r2 }
    }

    pub fn from_mat3(o: &Mat3) -> (r: Mat3)
        ensures
            r@ == o@,
    {
        Mat3 { r0: o.r0, r1: o.r1, r2: o.r2 }
    }

    /// Numbers of rows and columns.
    pub fn size(&self) -> (r: (usize, usize))
        ensures
            r.0 == 3usize && r.1 == 3usize,
    {
        (3, 3)
    }

    pub fn row(&self, row: usize) -> (r: Vector3)
        requires
            row < 3,
        ensures
            r@ == row_s(self@, row as int),
    {
        if row == 0 {
            self.r0
        } else if row == 1 {
            self.r1
        } else {
            self.r2
        }
    }

    pub fn col(&self, col: usize) -> (r: Vector3)
        requires
            col < 3,
        ensures
            r@ == col_s(self@, col as int),
    {
        Vector3::new(self.r0.at(col), self.r1.at(col), self.r2.at(col))
    }

    pub fn at(&self, row: usize, col: usize) -> (r: Fx)
        requires
            row < 3,
            col < 3,
        ensures
            r@ == at_s(self@, row as int, col as int),
    {
        self.row(row).at(col)
    }

    /// Overwrite the entry at `(row, col)`.
    pub fn set_at(&mut self, row: usize, col: usize, v: Fx)
        requires
            row < 3,
            col < 3,
        ensures
            at_s(final(self)@, row as int, col as int) == v@,
            forall|r: int, c: int|
                0 <= r < 3 && 0 <= c < 3 && (r != row as int || c != col as int)
                    ==> at_s(final(self)@, r, c) == at_s(old(self)@, r, c),
    {
        if row == 0 {
            self.r0.set_at(col, v);
        } else if row == 1 {
            self.r1.set_at(col, v);
        } else {
            self.r2.set_at(col, v);
        }
    }

    /// Transpose in place.
    pub fn transpose(&mut self)
        ensures
            final(self)@ == transposed_s(old(self)@),
    {
        let t = self.transposed();
        *self = t;
    }

    pub fn transposed(&self) -> (r: Mat3)
        ensures
            r@ == transposed_s(self@),
    {
        Mat3 {
            r0: Vector3::new(self.r0.x, self.r1.x, self.r2.x),
            r1: Vector3::new(self.r0.y, self.r1.y, self.r2.y),
            r2: Vector3::new(self.r0.z, self.r1.z, self.r2.z),
        }
    }

    /// The 2x2 block left after removing row `row` and column `col`,
    /// as `[[r; 2]; 2]` in row-major order.
    pub fn cut(&self, row: usize, col: usize) -> (r: [[Fx; 2]; 2])
        requires
            row < 3,
            col < 3,
        ensures
            (r@[0]@[0]@, r@[0]@[1]@, r@[1]@[0]@, r@[1]@[1]@) == cut_s(
                self@,
                row as int,
                col as int,
            ),
    {
        let r1: usize = if row == 0 { 1 } else { 0 };
        let r2: usize = if row == 2 { 1 } else { 2 };
        let c1: usize = if col == 0 { 1 } else { 0 };
        let c2: usize = if col == 2 { 1 } else { 2 };
        [[self.at(r1, c1), self.at(r1, c2)], [self.at(r2, c1), self.at(r2, c2)]]
    }

    pub fn determinant_from_cut(arr: [[Fx; 2]; 2]) -> (r: Fx)
        ensures
            r@ == det2_s((arr@[0]@[0]@, arr@[0]@[1]@, arr@[1]@[0]@, arr@[1]@[1]@)),
    {
        fsub(fmul(arr[0][0], arr[1][1]), fmul(arr[0][1], arr[1][0]))
    }

    pub fn determinant(&self) -> (r: Fx)
        ensures
            r@ == det_s(self@),
    {
        let d0 = Mat3::determinant_from_cut(self.cut(0, 0));
        let d1 = Mat3::determinant_from_cut(self.cut(0, 1));
        let d2 = Mat3::determinant_from_cut(self.cut(0, 2));
        crate::fixed::fadd(
            fsub(fmul(d0, self.at(0, 0)), fmul(d1, self.at(0, 1))),
            fmul(d2, self.at(0, 2)),
        )
    }

    /// The matrix of minors.
    pub fn minors(&self) -> (r: Mat3)
        ensures
            r@ == minors_s(self@),
    {
        Mat3 {
            r0: Vector3::new(
                Mat3::determinant_from_cut(self.cut(0, 0)),
                Mat3::determinant_from_cut(self.cut(0, 1)),
                Mat3::determinant_from_cut(self.cut(0, 2)),
            ),
            r1: Vector3::new(
                Mat3::determinant_from_cut(self.cut(1, 0)),
                Mat3::determinant_from_cut(self.cut(1, 1)),
                Mat3::determinant_from_cut(self.cut(1, 2)),
            ),
            r2: Vector3::new(
                Mat3::determinant_from_cut(self.cut(2, 0)),
                Mat3::determinant_from_cut(self.cut(2, 1)),
                Mat3::determinant_from_cut(self.cut(2, 2)),
            ),
        }
    }

    /// Minors with the checkerboard of signs applied.
    pub fn cofactor_from(minors: &Mat3) -> (r: Mat3)
        ensures
            r@ == cofactor_s(minors@),
    {
        let pos = Fx(SCALE);
        let neg = Fx(-SCALE);
        Mat3 {
            r0: Vector3::new(
                fmul(minors.r0.x, pos),
                fmul(minors.r0.y, neg),
                fmul(minors.r0.z, pos),
            ),
            r1: Vector3::new(
                fmul(minors.r1.x, neg),
                fmul(minors.r1.y, pos),
                fmul(minors.r1.z, neg),
            ),
            r2: Vector3::new(
                fmul(minors.r2.x, pos),
                fmul(minors.r2.y, neg),
                fmul(minors.r2.z, pos),
            ),
        }
    }

    /// The transposed cofactor matrix.
    pub fn adjugate_from(cofactors: &Mat3) -> (r: Mat3)
        ensures
            r@ == transposed_s(cofactors@),
    {
        cofactors.transposed()
    }

    /// Inverse by the adjugate; the determinant must not vanish.
    pub fn inverse(&self) -> (r: Mat3)
        requires
            det_s(self@) != 0,
        ensures
            r@ == inverse_s(self@),
    {
        let det = self.determinant();
        let minors = self.minors();
        let cofactors = Mat3::cofactor_from(&minors);
        let adj = Mat3::adjugate_from(&cofactors);
        adj.mul_scalar(fdiv(Fx(SCALE), det))
    }

    pub fn mul_mat(&self, r: &Mat3) -> (m: Mat3)
        ensures
            m@ == mat_mul_s(self@, r@),
    {
        Mat3 {
            r0: Vector3::new(
                dot(&self.r0, &r.col(0)),
                dot(&self.r0, &r.col(1)),
                dot(&self.r0, &r.col(2)),
            ),
            r1: Vector3::new(
                dot(&self.r1, &r.col(0)),
                dot(&self.r1, &r.col(1)),
                dot(&self.r1, &r.col(2)),
            ),
            r2: Vector3::new(
                dot(&self.r2, &r.col(0)),
                dot(&self.r2, &r.col(1)),
                dot(&self.r2, &r.col(2)),
            ),
        }
    }

    pub fn mul_vec(&self, v: &Vector3) -> (r: Vector3)
        ensures
            r@ == mat_vec_s(self@, v@),
    {
        Vector3::new(dot(&self.r0, v), dot(&self.r1, v), dot(&self.r2, v))
    }

    pub fn mul_scalar(&self, k: Fx) -> (r: Mat3)
        ensures
            r@ == mat_scale_s(self@, k@),
    {
        Mat3 { r0: self.r0.scale(k), r1: self.r1.scale(k), r2: self.r2.scale(k) }
    }
}

} // verus!
