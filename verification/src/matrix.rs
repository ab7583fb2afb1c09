//! The `M` x `N` row-major matrix type and its constructors.
//!
//! A matrix always occupies a fixed 4x4 block of 32-bit scalars, whatever its
//! logical shape.  Each physical row stores its `N` logical elements
//! right-aligned and in reverse (WZYX) order: logical column `j` lives in
//! physical slot `3 - j` of the row.  The leading slots of a row, and the
//! trailing rows when `M` is 3, are padding: their content is indeterminate
//! and is never part of any comparison.

use vstd::prelude::*;

use crate::fvec::{dot3_bits, FVec3};
use crate::projection::CoordinateOrientation;
use crate::scalar::{abs_diff_le_bits, float_eq_bits, float_neg, neg_bits, F32_ONE, F32_ZERO};

verus! {

/// The shapes a matrix may have: 3 or 4 rows, 1 to 4 columns.
pub open spec fn shape_ok(m: int, n: int) -> bool {
    (m == 3 || m == 4) && 1 <= n && n <= 4
}

/// The physical slot of logical element (i, j) in the 16-word block:
/// row i, and within the row the reverse (WZYX) position of column j.
pub open spec fn slot_of(i: int, j: int) -> int {
    i * 4 + 3 - j
}

/// An m x n window where every element is `v`.
pub open spec fn splat_window(m: int, n: int, v: u32) -> Seq<Seq<u32>> {
    Seq::new(m as nat, |i: int| Seq::new(n as nat, |j: int| v))
}

/// The n x n Kronecker delta: 1.0 on the diagonal, 0.0 elsewhere.
pub open spec fn identity_window(n: int) -> Seq<Seq<u32>> {
    Seq::new(n as nat, |i: int| Seq::new(n as nat, |j: int| if i == j { F32_ONE } else { F32_ZERO }))
}

/// An n x n window with the given diagonal and 0.0 elsewhere.
pub open spec fn diagonal_window(d: Seq<u32>) -> Seq<Seq<u32>> {
    Seq::new(d.len(), |i: int| Seq::new(d.len(), |j: int| if i == j { d[i] } else { F32_ZERO }))
}

/// The transposed window: element (i, j) of the result is element (j, i) of
/// the argument.
pub open spec fn transpose_window(w: Seq<Seq<u32>>) -> Seq<Seq<u32>> {
    Seq::new(if w.len() > 0 { w[0].len() } else { 0 }, |i: int| Seq::new(w.len(), |j: int| w[j][i]))
}

/// Whether `w` is a square window equal to the identity, bit for bit.
pub open spec fn is_identity_window(w: Seq<Seq<u32>>) -> bool {
    &&& forall|i: int| 0 <= i < w.len() ==> (#[trigger] w[i]).len() == w.len()
    &&& forall|i: int, j: int|
        0 <= i < w.len() && 0 <= j < w.len() ==> #[trigger] w[i][j] == if i == j {
            F32_ONE
        } else {
            F32_ZERO
        }
}

/// No element of the window is a NaN.
pub open spec fn nan_free_window(w: Seq<Seq<u32>>) -> bool {
    forall|i: int, j: int|
        0 <= i < w.len() && 0 <= j < w[i].len() ==> !crate::scalar::is_nan_bits(#[trigger] w[i][j])
}

/// Every element of the window is finite (neither a NaN nor an infinity).
pub open spec fn finite_window(w: Seq<Seq<u32>>) -> bool {
    forall|i: int, j: int|
        0 <= i < w.len() && 0 <= j < w[i].len() ==> crate::scalar::is_finite_bits(#[trigger] w[i][j])
}

/// IEEE-754 equality of two rows, element by element.
pub open spec fn rows_float_eq(a: Seq<u32>, b: Seq<u32>) -> bool {
    a.len() == b.len() && forall|j: int| 0 <= j < a.len() ==> float_eq_bits(#[trigger] a[j], #[trigger] b[j])
}

/// IEEE-754 equality of two windows, element by element over the logical
/// window only; padding never takes part.
pub open spec fn windows_float_eq(a: Seq<Seq<u32>>, b: Seq<Seq<u32>>) -> bool {
    a.len() == b.len() && forall|i: int| 0 <= i < a.len() ==> rows_float_eq(#[trigger] a[i], #[trigger] b[i])
}

/// Approximate equality of two rows: every element pair within `eps`.
pub open spec fn rows_abs_diff_le(a: Seq<u32>, b: Seq<u32>, eps: u32) -> bool {
    a.len() == b.len() && forall|j: int| 0 <= j < a.len() ==> abs_diff_le_bits(#[trigger] a[j], #[trigger] b[j], eps)
}

/// Approximate equality of two windows over the logical window only.
pub open spec fn windows_abs_diff_le(a: Seq<Seq<u32>>, b: Seq<Seq<u32>>, eps: u32) -> bool {
    a.len() == b.len() && forall|i: int|
        0 <= i < a.len() ==> rows_abs_diff_le(#[trigger] a[i], #[trigger] b[i], eps)
}

/// An `M` x `N` row-major matrix of IEEE-754 single-precision scalars,
/// stored as raw bit patterns in the hardware's fixed 4x4 register format.
#[derive(Clone, Copy, Debug)]
pub struct Matrix<const M: usize, const N: usize> {
    cells: [u32; 16],
}

/// A 3x3 row-major matrix.
pub type Matrix3 = Matrix<3, 3>;

/// A 4x4 row-major matrix.
pub type Matrix4 = Matrix<4, 4>;

/// The raw block of any matrix is exactly 16 words long.
pub broadcast proof fn lemma_matrix_raw_len<const M: usize, const N: usize>(m: Matrix<M, N>)
    ensures
        (#[trigger] m.raw()).len() == 16,
{
}

impl<const M: usize, const N: usize> View for Matrix<M, N> {
    type V = Seq<Seq<u32>>;

    open spec fn view(&self) -> Seq<Seq<u32>> {
        self.window()
    }
}

impl<const M: usize, const N: usize> Matrix<M, N> {
    /// The raw 16-word block, in the order the hardware consumes it.
    pub closed spec fn raw(self) -> Seq<u32> {
        self.cells@
    }

    /// Logical element (i, j), read from its WZYX slot of the raw block.
    pub open spec fn entry(self, i: int, j: int) -> u32 {
        self.raw()[slot_of(i, j)]
    }

    /// The logical M x N window of the matrix.
    pub open spec fn window(self) -> Seq<Seq<u32>> {
        Seq::new(M as nat, |i: int| Seq::new(N as nat, |j: int| self.entry(i, j)))
    }

    /// Wrap a raw 16-word block as a matrix.  The block is taken as it is;
    /// slots outside the logical window become padding.
    pub fn from_raw(cells: [u32; 16]) -> (r: Self)
        requires
            shape_ok(M as int, N as int),
        ensures
            r.raw() == cells@,
    {
        Matrix { cells }
    }

    /// Hand out the raw 16-word block, in the order the hardware consumes it.
    pub fn into_raw(self) -> (r: [u32; 16])
        ensures
            r@ == self.raw(),
    {
        self.cells
    }

    /// One word of the raw block.
    pub fn raw_at(&self, k: usize) -> (r: u32)
        requires
            k < 16,
        ensures
            r == self.raw()[k as int],
    {
        self.cells[k]
    }

    /// Logical element (i, j).
    pub fn get(&self, i: usize, j: usize) -> (r: u32)
        requires
            i < M,
            j < N,
            shape_ok(M as int, N as int),
        ensures
            r == self.entry(i as int, j as int),
            r == self.window()[i as int][j as int],
    {
        self.cells[i * 4 + 3 - j]
    }

    /// Replace logical element (i, j).
    pub(crate) fn set_entry(&mut self, i: usize, j: usize, v: u32)
        requires
            i < M,
            j < N,
            shape_ok(M as int, N as int),
        ensures
            final(self).raw() == old(self).raw().update(slot_of(i as int, j as int), v),
    {
        self.cells[i * 4 + 3 - j] = v;
    }

    /// The zero matrix: every logical element (and here, every padding slot)
    /// is +0.0.
    pub fn zero() -> (r: Self)
        requires
            shape_ok(M as int, N as int),
        ensures
            r@ == splat_window(M as int, N as int, F32_ZERO),
            forall|k: int| 0 <= k < 16 ==> r.raw()[k] == F32_ZERO,
    {
        let r = Matrix { cells: [F32_ZERO; 16] };
        proof {
            assert(r@ =~~= splat_window(M as int, N as int, F32_ZERO));
        }
        r
    }

    /// Transpose the matrix, swapping rows and columns: logical element
    /// (i, j) of the result is logical element (j, i) of the input.  The
    /// padding of the result is +0.0.
    pub fn transpose(self) -> (r: Matrix<N, M>)
        requires
            shape_ok(M as int, N as int),
            shape_ok(N as int, M as int),
        ensures
            r@ == transpose_window(self@),
    {
        let mut cells: [u32; 16] = [F32_ZERO; 16];
        let mut i: usize = 0;
        while i < M
            invariant
                i <= M,
                shape_ok(M as int, N as int),
                shape_ok(N as int, M as int),
                forall|i2: int, j2: int|
                    0 <= i2 < i && 0 <= j2 < N ==> cells@[slot_of(j2, i2)] == self.entry(i2, j2),
            decreases M - i,
        {
            let mut j: usize = 0;
            while j < N
                invariant
                    i < M,
                    j <= N,
                    shape_ok(M as int, N as int),
                    shape_ok(N as int, M as int),
                    forall|i2: int, j2: int|
                        0 <= i2 < i && 0 <= j2 < N ==> cells@[slot_of(j2, i2)] == self.entry(i2, j2),
                    forall|j2: int|
                        0 <= j2 < j ==> cells@[slot_of(j2, i as int)] == self.entry(i as int, j2),
                decreases N - j,
            {
                cells[j * 4 + 3 - i] = self.cells[i * 4 + 3 - j];
                j += 1;
            }
            i += 1;
        }
        let r = Matrix::<N, M>::from_raw(cells);
        proof {
            assert(r@ =~~= transpose_window(self@));
        }
        r
    }
}

impl<const N: usize> Matrix<N, N> {
    /// The identity matrix: the logical window is the Kronecker delta, and
    /// the padding is +0.0.
    pub fn identity() -> (r: Self)
        requires
            shape_ok(N as int, N as int),
        ensures
            r@ == identity_window(N as int),
            is_identity_window(r@),
    {
        let mut cells: [u32; 16] = [F32_ZERO; 16];
        let mut i: usize = 0;
        while i < N
            invariant
                i <= N,
                N <= 4,
                forall|k: int|
                    0 <= k < 16 ==> cells@[k] == (if k % 3 == 0 && 3 <= k && k <= 3 * (i as int) {
                        F32_ONE
                    } else {
                        F32_ZERO
                    }),
            decreases N - i,
        {
            cells[i * 4 + 3 - i] = F32_ONE;
            i += 1;
        }
        let r = Matrix::<N, N>::from_raw(cells);
        proof {
            assert forall|i: int, j: int| 0 <= i < N && 0 <= j < N implies r@[i][j] == (if i == j {
                F32_ONE
            } else {
                F32_ZERO
            }) by {
                assert(slot_of(i, j) == 4 * i + 3 - j);
                if i == j {
                    assert((3 * i + 3) % 3 == 0) by (nonlinear_arith);
                } else {
                    assert((4 * i + 3 - j) % 3 == 0 ==> (i - j) % 3 == 0) by (nonlinear_arith);
                }
            }
            assert(r@ =~~= identity_window(N as int));
        }
        r
    }
}

/// The rows of a view matrix built from a camera basis: the side, up and
/// forward unit directions `s`, `u`, `f` and the camera position `e`.  Each
/// of the first three rows is a basis direction with the negated projection
/// of the position; in the right-handed convention the camera looks down
/// the negative depth axis, so the forward row appears negated.  The last
/// row is (0, 0, 0, 1).
pub open spec fn look_window(
    s: Seq<u32>,
    u: Seq<u32>,
    f: Seq<u32>,
    e: Seq<u32>,
    lh: bool,
) -> Seq<Seq<u32>> {
    seq![
        seq![s[0], s[1], s[2], neg_bits(dot3_bits(s, e))],
        seq![u[0], u[1], u[2], neg_bits(dot3_bits(u, e))],
        if lh {
            seq![f[0], f[1], f[2], neg_bits(dot3_bits(f, e))]
        } else {
            seq![neg_bits(f[0]), neg_bits(f[1]), neg_bits(f[2]), dot3_bits(f, e)]
        },
        seq![F32_ZERO, F32_ZERO, F32_ZERO, F32_ONE],
    ]
}

impl Matrix4 {
    /// The 3D transformation matrix of a camera from its orthonormal basis:
    /// `side`, `up` and `forward` must already be the camera's unit side,
    /// up and forward directions (the normalizations, which need square
    /// roots, happen outside this library's arithmetic), and `position` is
    /// the camera's place in the world.  The handedness selects the sign
    /// convention of the forward row.
    #[verifier::rlimit(30)]
    pub fn looking_at_basis(
        side: &FVec3,
        up: &FVec3,
        forward: &FVec3,
        position: &FVec3,
        coordinates: CoordinateOrientation,
    ) -> (r: Matrix4)
        ensures
            r@ == look_window(
                side@,
                up@,
                forward@,
                position@,
                coordinates == CoordinateOrientation::LeftHanded,
            ),
    {
        let lh = coordinates.is_left_handed();
        let mut m = Matrix4::zero();
        m.set_entry(0, 0, side.component(0));
        m.set_entry(0, 1, side.component(1));
        m.set_entry(0, 2, side.component(2));
        m.set_entry(0, 3, float_neg(side.dot(position)));
        m.set_entry(1, 0, up.component(0));
        m.set_entry(1, 1, up.component(1));
        m.set_entry(1, 2, up.component(2));
        m.set_entry(1, 3, float_neg(up.dot(position)));
        if lh {
            m.set_entry(2, 0, forward.component(0));
            m.set_entry(2, 1, forward.component(1));
            m.set_entry(2, 2, forward.component(2));
            m.set_entry(2, 3, float_neg(forward.dot(position)));
        } else {
            m.set_entry(2, 0, float_neg(forward.component(0)));
            m.set_entry(2, 1, float_neg(forward.component(1)));
            m.set_entry(2, 2, float_neg(forward.component(2)));
            m.set_entry(2, 3, forward.dot(position));
        }
        m.set_entry(3, 3, F32_ONE);
        proof {
            assert(m@ =~~= look_window(
                side@,
                up@,
                forward@,
                position@,
                coordinates == CoordinateOrientation::LeftHanded,
            ));
        }
        m
    }
}

impl Matrix3 {
    /// A 3x3 matrix with the given diagonal and 0.0 elsewhere.
    pub fn diagonal(x: u32, y: u32, z: u32) -> (r: Self)
        ensures
            r@ == diagonal_window(seq![x, y, z]),
    {
        let mut m = Matrix3::zero();
        m.set_entry(0, 0, x);
        m.set_entry(1, 1, y);
        m.set_entry(2, 2, z);
        proof {
            assert(m@ =~~= diagonal_window(seq![x, y, z]));
        }
        m
    }
}

impl Matrix4 {
    /// A 4x4 matrix with the given diagonal and 0.0 elsewhere.
    pub fn diagonal(x: u32, y: u32, z: u32, w: u32) -> (r: Self)
        ensures
            r@ == diagonal_window(seq![x, y, z, w]),
    {
        let mut m = Matrix4::zero();
        m.set_entry(0, 0, x);
        m.set_entry(1, 1, y);
        m.set_entry(2, 2, z);
        m.set_entry(3, 3, w);
        proof {
            assert(m@ =~~= diagonal_window(seq![x, y, z, w]));
        }
        m
    }
}

} // verus!
