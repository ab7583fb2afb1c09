//! Matrix inversion by the classical adjugate.
//!
//! The determinant is expanded along the first row and each entry of the
//! inverse is a signed minor scaled by the IEEE-754 reciprocal of the
//! determinant.  A determinant of exactly +/-0.0 means the matrix has no
//! inverse: the operation then fails and hands the original back unchanged.

use vstd::prelude::*;

use crate::matrix::{shape_ok, slot_of, Matrix};
use crate::scalar::{
    add_bits, div_bits, float_add, float_div, float_eq, float_mul, float_neg, float_sub,
    is_zero_bits, lemma_const_bits, mul_bits, neg_bits, sub_bits, F32_ONE, F32_ZERO,
};

verus! {

/// The 2x2 determinant a*d - b*c.
pub open spec fn det2x2(a: u32, b: u32, c: u32, d: u32) -> u32 {
    sub_bits(mul_bits(a, d), mul_bits(b, c))
}

/// The 3x3 determinant of the elements e00..e22, expanded along the first
/// row and combined as (t0 - t1) + t2.
pub open spec fn det3x3(
    e00: u32,
    e01: u32,
    e02: u32,
    e10: u32,
    e11: u32,
    e12: u32,
    e20: u32,
    e21: u32,
    e22: u32,
) -> u32 {
    add_bits(
        sub_bits(
            mul_bits(e00, det2x2(e11, e12, e21, e22)),
            mul_bits(e01, det2x2(e10, e12, e20, e22)),
        ),
        mul_bits(e02, det2x2(e10, e11, e20, e21)),
    )
}

/// Index k of the rows (or columns) that remain when index s is struck out.
pub open spec fn skip_idx(s: int, k: int) -> int {
    if k < s {
        k
    } else {
        k + 1
    }
}

/// The 2x2 minor of a 3x3 window with row sr and column sc struck out.
pub open spec fn minor2_of3(w: Seq<Seq<u32>>, sr: int, sc: int) -> u32 {
    det2x2(
        w[skip_idx(sr, 0)][skip_idx(sc, 0)],
        w[skip_idx(sr, 0)][skip_idx(sc, 1)],
        w[skip_idx(sr, 1)][skip_idx(sc, 0)],
        w[skip_idx(sr, 1)][skip_idx(sc, 1)],
    )
}

/// The 3x3 minor of a 4x4 window with row sr and column sc struck out.
pub open spec fn minor3_of4(w: Seq<Seq<u32>>, sr: int, sc: int) -> u32 {
    det3x3(
        w[skip_idx(sr, 0)][skip_idx(sc, 0)],
        w[skip_idx(sr, 0)][skip_idx(sc, 1)],
        w[skip_idx(sr, 0)][skip_idx(sc, 2)],
        w[skip_idx(sr, 1)][skip_idx(sc, 0)],
        w[skip_idx(sr, 1)][skip_idx(sc, 1)],
        w[skip_idx(sr, 1)][skip_idx(sc, 2)],
        w[skip_idx(sr, 2)][skip_idx(sc, 0)],
        w[skip_idx(sr, 2)][skip_idx(sc, 1)],
        w[skip_idx(sr, 2)][skip_idx(sc, 2)],
    )
}

/// `v` under the cofactor sign (-1)^s.
pub open spec fn signed_by(v: u32, s: int) -> u32 {
    if s % 2 == 0 {
        v
    } else {
        neg_bits(v)
    }
}

/// The cofactor of position (sr, sc) of a 3x3 window.
pub open spec fn cof3(w: Seq<Seq<u32>>, sr: int, sc: int) -> u32 {
    signed_by(minor2_of3(w, sr, sc), sr + sc)
}

/// The cofactor of position (sr, sc) of a 4x4 window.
pub open spec fn cof4(w: Seq<Seq<u32>>, sr: int, sc: int) -> u32 {
    signed_by(minor3_of4(w, sr, sc), sr + sc)
}

/// The determinant of a 3x3 window.
pub open spec fn det3_window(w: Seq<Seq<u32>>) -> u32 {
    det3x3(
        w[0][0],
        w[0][1],
        w[0][2],
        w[1][0],
        w[1][1],
        w[1][2],
        w[2][0],
        w[2][1],
        w[2][2],
    )
}

/// The determinant of a 4x4 window, expanded along the first row and
/// combined as ((t0 - t1) + t2) - t3.
pub open spec fn det4_window(w: Seq<Seq<u32>>) -> u32 {
    sub_bits(
        add_bits(
            sub_bits(
                mul_bits(w[0][0], minor3_of4(w, 0, 0)),
                mul_bits(w[0][1], minor3_of4(w, 0, 1)),
            ),
            mul_bits(w[0][2], minor3_of4(w, 0, 2)),
        ),
        mul_bits(w[0][3], minor3_of4(w, 0, 3)),
    )
}

/// The inverse of a 3x3 window: entry (i, j) is the cofactor of (j, i)
/// scaled by `r`, the reciprocal of the determinant.
pub open spec fn inv3_window(w: Seq<Seq<u32>>, r: u32) -> Seq<Seq<u32>> {
    Seq::new(3, |i: int| Seq::new(3, |j: int| mul_bits(cof3(w, j, i), r)))
}

/// The inverse of a 4x4 window: entry (i, j) is the cofactor of (j, i)
/// scaled by `r`, the reciprocal of the determinant.
pub open spec fn inv4_window(w: Seq<Seq<u32>>, r: u32) -> Seq<Seq<u32>> {
    Seq::new(4, |i: int| Seq::new(4, |j: int| mul_bits(cof4(w, j, i), r)))
}

/// Which column or row k of the remaining 3 maps to when s is struck out.
fn skip_e(s: usize, k: usize) -> (r: usize)
    requires
        s < 4,
        k < 3,
    ensures
        r == skip_idx(s as int, k as int),
        r < 4,
{
    if k < s {
        k
    } else {
        k + 1
    }
}

impl Matrix<4, 4> {
    /// The 3x3 minor with row sr and column sc struck out.
    fn minor3_at(&self, sr: usize, sc: usize) -> (r: u32)
        requires
            sr < 4,
            sc < 4,
        ensures
            r == minor3_of4(self@, sr as int, sc as int),
    {
        let e00 = self.get(skip_e(sr, 0), skip_e(sc, 0));
        let e01 = self.get(skip_e(sr, 0), skip_e(sc, 1));
        let e02 = self.get(skip_e(sr, 0), skip_e(sc, 2));
        let e10 = self.get(skip_e(sr, 1), skip_e(sc, 0));
        let e11 = self.get(skip_e(sr, 1), skip_e(sc, 1));
        let e12 = self.get(skip_e(sr, 1), skip_e(sc, 2));
        let e20 = self.get(skip_e(sr, 2), skip_e(sc, 0));
        let e21 = self.get(skip_e(sr, 2), skip_e(sc, 1));
        let e22 = self.get(skip_e(sr, 2), skip_e(sc, 2));
        let c0 = float_sub(float_mul(e11, e22), float_mul(e12, e21));
        let c1 = float_sub(float_mul(e10, e22), float_mul(e12, e20));
        let c2 = float_sub(float_mul(e10, e21), float_mul(e11, e20));
        float_add(
            float_sub(float_mul(e00, c0), float_mul(e01, c1)),
            float_mul(e02, c2),
        )
    }
}

impl<const N: usize> Matrix<N, N> {
    /// The matrix inverse, by the classical adjugate over the logical
    /// window.  If the determinant (expanded along the first row) is exactly
    /// +/-0.0 the matrix has no inverse: the original is handed back
    /// unchanged as the failure value, and callers must branch on it.
    /// Otherwise every entry of the result is the transposed-position
    /// cofactor scaled by the IEEE-754 reciprocal of the determinant.
    #[verifier::rlimit(60)]
    pub fn inverse(self) -> (r: Result<Self, Self>)
        requires
            shape_ok(N as int, N as int),
        ensures
            N == 3 ==> match r {
                Result::Ok(m) => !is_zero_bits(det3_window(self@)) && m@ == inv3_window(
                    self@,
                    div_bits(F32_ONE, det3_window(self@)),
                ),
                Result::Err(m) => is_zero_bits(det3_window(self@)) && m == self,
            },
            N == 4 ==> match r {
                Result::Ok(m) => !is_zero_bits(det4_window(self@)) && m@ == inv4_window(
                    self@,
                    div_bits(F32_ONE, det4_window(self@)),
                ),
                Result::Err(m) => is_zero_bits(det4_window(self@)) && m == self,
            },
    {
        proof {
            lemma_const_bits();
        }
        if N == 3 {
            let e00 = self.get(0, 0);
            let e01 = self.get(0, 1);
            let e02 = self.get(0, 2);
            let e10 = self.get(1, 0);
            let e11 = self.get(1, 1);
            let e12 = self.get(1, 2);
            let e20 = self.get(2, 0);
            let e21 = self.get(2, 1);
            let e22 = self.get(2, 2);
            let m00 = float_sub(float_mul(e11, e22), float_mul(e12, e21));
            let m01 = float_sub(float_mul(e10, e22), float_mul(e12, e20));
            let m02 = float_sub(float_mul(e10, e21), float_mul(e11, e20));
            let m10 = float_sub(float_mul(e01, e22), float_mul(e02, e21));
            let m11 = float_sub(float_mul(e00, e22), float_mul(e02, e20));
            let m12 = float_sub(float_mul(e00, e21), float_mul(e01, e20));
            let m20 = float_sub(float_mul(e01, e12), float_mul(e02, e11));
            let m21 = float_sub(float_mul(e00, e12), float_mul(e02, e10));
            let m22 = float_sub(float_mul(e00, e11), float_mul(e01, e10));
            let det = float_add(
                float_sub(float_mul(e00, m00), float_mul(e01, m01)),
                float_mul(e02, m02),
            );
            proof {
                assert(det == det3_window(self@));
            }
            if float_eq(det, F32_ZERO) {
                return Err(self);
            }
            let rd = float_div(F32_ONE, det);
            let mut cells: [u32; 16] = [F32_ZERO; 16];
            cells[3] = float_mul(m00, rd);
            cells[2] = float_mul(float_neg(m10), rd);
            cells[1] = float_mul(m20, rd);
            cells[7] = float_mul(float_neg(m01), rd);
            cells[6] = float_mul(m11, rd);
            cells[5] = float_mul(float_neg(m21), rd);
            cells[11] = float_mul(m02, rd);
            cells[10] = float_mul(float_neg(m12), rd);
            cells[9] = float_mul(m22, rd);
            let inv = Matrix::<N, N>::from_raw(cells);
            proof {
                assert(inv@ =~~= inv3_window(self@, rd));
            }
            Ok(inv)
        } else {
            let m4 = Matrix::<4, 4>::from_raw(self.into_raw());
            proof {
                assert(m4@ =~~= self@);
            }
            let mm00 = m4.minor3_at(0, 0);
            let mm01 = m4.minor3_at(0, 1);
            let mm02 = m4.minor3_at(0, 2);
            let mm03 = m4.minor3_at(0, 3);
            let det = float_sub(
                float_add(
                    float_sub(float_mul(m4.get(0, 0), mm00), float_mul(m4.get(0, 1), mm01)),
                    float_mul(m4.get(0, 2), mm02),
                ),
                float_mul(m4.get(0, 3), mm03),
            );
            proof {
                assert(det == det4_window(self@));
            }
            if float_eq(det, F32_ZERO) {
                return Err(self);
            }
            let rd = float_div(F32_ONE, det);
            let mut cells: [u32; 16] = [F32_ZERO; 16];
            let mut i: usize = 0;
            while i < 4
                invariant
                    i <= 4,
                    m4@ == self@,
                    forall|i2: int, j2: int|
                        0 <= i2 < i && 0 <= j2 < 4 ==> cells@[slot_of(i2, j2)] == mul_bits(
                            #[trigger] cof4(m4@, j2, i2),
                            rd,
                        ),
                decreases 4 - i,
            {
                let mut j: usize = 0;
                while j < 4
                    invariant
                        i < 4,
                        j <= 4,
                        m4@ == self@,
                        forall|i2: int, j2: int|
                            0 <= i2 < i && 0 <= j2 < 4 ==> cells@[slot_of(i2, j2)] == mul_bits(
                                #[trigger] cof4(m4@, j2, i2),
                                rd,
                            ),
                        forall|j2: int|
                            0 <= j2 < j ==> cells@[slot_of(i as int, j2)] == mul_bits(
                                #[trigger] cof4(m4@, j2, i as int),
                                rd,
                            ),
                    decreases 4 - j,
                {
                    let mut v = m4.minor3_at(j, i);
                    if (i + j) % 2 == 1 {
                        v = float_neg(v);
                    }
                    cells[i * 4 + 3 - j] = float_mul(v, rd);
                    j += 1;
                }
                i += 1;
            }
            let inv = Matrix::<N, N>::from_raw(cells);
            proof {
                assert(inv@ =~~= inv4_window(self@, rd));
            }
            Ok(inv)
        }
    }
}

} // verus!
