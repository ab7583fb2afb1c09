//! Matrix arithmetic and comparison.
//!
//! `==` and `abs_diff_eq` compare only the logical window; padding never
//! takes part.  The arithmetic operations work on the whole 16-word block
//! (as the target hardware does), so their contracts state both the raw
//! blockwise result and the logical window that follows from it.

use vstd::prelude::*;

use crate::matrix::{
    shape_ok, slot_of, windows_float_eq, windows_abs_diff_le, rows_float_eq, rows_abs_diff_le,
    is_identity_window, finite_window, Matrix,
};
use crate::fvec::{vec_len_ok, FVec, FVec3, FVec4};
use crate::scalar::{
    add_bits, sub_bits, mul_bits, float_add, float_sub, float_mul, float_abs, float_le, float_eq,
    float_eq_bits, abs_diff_le_bits, is_zero_bits, is_finite_bits, F32_ZERO, F32_ONE,
    F32_SQRT_EPSILON,
};

verus! {

/// The element-wise IEEE-754 sum of two windows.
pub open spec fn add_window(a: Seq<Seq<u32>>, b: Seq<Seq<u32>>) -> Seq<Seq<u32>> {
    Seq::new(a.len(), |i: int| Seq::new(a[i].len(), |j: int| add_bits(a[i][j], b[i][j])))
}

/// The element-wise IEEE-754 difference of two windows.
pub open spec fn sub_window(a: Seq<Seq<u32>>, b: Seq<Seq<u32>>) -> Seq<Seq<u32>> {
    Seq::new(a.len(), |i: int| Seq::new(a[i].len(), |j: int| sub_bits(a[i][j], b[i][j])))
}

/// `a` equals `x` bit for bit, except that any zero `x` only forces `a` to
/// be some zero: the intermediate states of a sum whose remaining terms are
/// all zeros.
pub open spec fn zero_or_same(a: u32, x: u32) -> bool {
    if is_zero_bits(x) {
        is_zero_bits(a)
    } else {
        a == x
    }
}

/// The IEEE-754 inner product of row i of `a` and column j of `b` over the
/// first `k + 1` terms, accumulated left to right:
/// (...((a[i][0] * b[0][j]) + a[i][1] * b[1][j]) + ...) + a[i][k] * b[k][j].
pub open spec fn dot_chain(a: Seq<Seq<u32>>, b: Seq<Seq<u32>>, i: int, j: int, k: int) -> u32
    decreases k,
{
    if k <= 0 {
        mul_bits(a[i][0], b[0][j])
    } else {
        add_bits(dot_chain(a, b, i, j, k - 1), mul_bits(a[i][k], b[k][j]))
    }
}

/// The matrix product of an m x n and an n x p window: element (i, j) is the
/// inner product of row i and column j, accumulated left to right.
pub open spec fn mul_window(a: Seq<Seq<u32>>, b: Seq<Seq<u32>>, p: int) -> Seq<Seq<u32>> {
    Seq::new(a.len(), |i: int| Seq::new(p as nat, |j: int| dot_chain(a, b, i, j, a[i].len() - 1)))
}

impl<const M: usize, const N: usize> Matrix<M, N> {
    /// Element-wise sum of two equal-shape matrices.  Every raw slot is the
    /// IEEE-754 sum of the operands' slots; in particular a slot where both
    /// operands hold +0.0 stays +0.0.
    pub fn add(&self, rhs: &Self) -> (r: Self)
        requires
            shape_ok(M as int, N as int),
        ensures
            forall|k: int| 0 <= k < 16 ==> r.raw()[k] == add_bits(self.raw()[k], rhs.raw()[k]),
            r@ == add_window(self@, rhs@),
            forall|k: int|
                0 <= k < 16 && self.raw()[k] == F32_ZERO && rhs.raw()[k] == F32_ZERO
                    ==> r.raw()[k] == F32_ZERO,
    {
        let mut cells: [u32; 16] = [F32_ZERO; 16];
        let mut k: usize = 0;
        while k < 16
            invariant
                k <= 16,
                forall|k2: int| 0 <= k2 < k ==> cells@[k2] == add_bits(self.raw()[k2], rhs.raw()[k2]),
                forall|k2: int|
                    0 <= k2 < k && self.raw()[k2] == F32_ZERO && rhs.raw()[k2] == F32_ZERO
                        ==> cells@[k2] == F32_ZERO,
            decreases 16 - k,
        {
            cells[k] = float_add(self.raw_at(k), rhs.raw_at(k));
            k += 1;
        }
        let r = Matrix::<M, N>::from_raw(cells);
        proof {
            assert(r@ =~~= add_window(self@, rhs@));
        }
        r
    }

    /// Element-wise difference of two equal-shape matrices.  Every raw slot
    /// is the IEEE-754 difference of the operands' slots; in particular a
    /// slot where both operands hold +0.0 stays +0.0.
    pub fn sub(&self, rhs: &Self) -> (r: Self)
        requires
            shape_ok(M as int, N as int),
        ensures
            forall|k: int| 0 <= k < 16 ==> r.raw()[k] == sub_bits(self.raw()[k], rhs.raw()[k]),
            r@ == sub_window(self@, rhs@),
            forall|k: int|
                0 <= k < 16 && self.raw()[k] == F32_ZERO && rhs.raw()[k] == F32_ZERO
                    ==> r.raw()[k] == F32_ZERO,
    {
        let mut cells: [u32; 16] = [F32_ZERO; 16];
        let mut k: usize = 0;
        while k < 16
            invariant
                k <= 16,
                forall|k2: int| 0 <= k2 < k ==> cells@[k2] == sub_bits(self.raw()[k2], rhs.raw()[k2]),
                forall|k2: int|
                    0 <= k2 < k && self.raw()[k2] == F32_ZERO && rhs.raw()[k2] == F32_ZERO
                        ==> cells@[k2] == F32_ZERO,
            decreases 16 - k,
        {
            cells[k] = float_sub(self.raw_at(k), rhs.raw_at(k));
            k += 1;
        }
        let r = Matrix::<M, N>::from_raw(cells);
        proof {
            assert(r@ =~~= sub_window(self@, rhs@));
        }
        r
    }

    /// Approximate equality over the logical window only: every element pair
    /// must satisfy |a - b| <= epsilon under IEEE-754 arithmetic, so the
    /// comparison is false whenever a compared element is a NaN.
    pub fn abs_diff_eq(&self, other: &Self, epsilon: u32) -> (r: bool)
        requires
            shape_ok(M as int, N as int),
        ensures
            r == windows_abs_diff_le(self@, other@, epsilon),
    {
        let mut i: usize = 0;
        while i < M
            invariant
                i <= M,
                shape_ok(M as int, N as int),
                forall|i2: int| 0 <= i2 < i ==> rows_abs_diff_le(#[trigger] self@[i2], other@[i2], epsilon),
            decreases M - i,
        {
            let mut j: usize = 0;
            while j < N
                invariant
                    i < M,
                    j <= N,
                    shape_ok(M as int, N as int),
                    forall|i2: int|
                        0 <= i2 < i ==> rows_abs_diff_le(#[trigger] self@[i2], other@[i2], epsilon),
                    forall|j2: int|
                        0 <= j2 < j ==> abs_diff_le_bits(
                            #[trigger] self@[i as int][j2],
                            other@[i as int][j2],
                            epsilon,
                        ),
                decreases N - j,
            {
                let d = float_sub(self.get(i, j), other.get(i, j));
                if !float_le(float_abs(d), epsilon) {
                    proof {
                        assert(!rows_abs_diff_le(self@[i as int], other@[i as int], epsilon));
                    }
                    return false;
                }
                j += 1;
            }
            proof {
                assert(rows_abs_diff_le(self@[i as int], other@[i as int], epsilon));
            }
            i += 1;
        }
        true
    }

    /// Standard matrix product over the logical windows: element (i, j) of
    /// the result is the IEEE-754 inner product of row i of `self` and
    /// column j of `rhs`, accumulated left to right.  The padding of the
    /// result is +0.0.
    ///
    /// Multiplying by the identity (on either side) returns the other
    /// operand up to IEEE-754 equality of the windows, provided that operand
    /// is finite throughout; an infinity breaks the law because 0 times
    /// infinity is a NaN.
    #[verifier::rlimit(30)]
    pub fn mul<const P: usize>(&self, rhs: &Matrix<N, P>) -> (r: Matrix<M, P>)
        requires
            shape_ok(M as int, N as int),
            shape_ok(N as int, P as int),
            shape_ok(M as int, P as int),
        ensures
            r@ == mul_window(self@, rhs@, P as int),
            is_identity_window(self@) && finite_window(rhs@) ==> windows_float_eq(r@, rhs@),
            is_identity_window(rhs@) && finite_window(self@) ==> windows_float_eq(r@, self@),
    {
        let ghost a = self@;
        let ghost b = rhs@;
        let ghost idl = is_identity_window(a) && finite_window(b);
        let ghost idr = is_identity_window(b) && finite_window(a);
        let mut cells: [u32; 16] = [F32_ZERO; 16];
        let mut i: usize = 0;
        while i < M
            invariant
                i <= M,
                a == self@,
                b == rhs@,
                idl == (is_identity_window(a) && finite_window(b)),
                idr == (is_identity_window(b) && finite_window(a)),
                shape_ok(M as int, N as int),
                shape_ok(N as int, P as int),
                shape_ok(M as int, P as int),
                forall|i2: int, j2: int|
                    0 <= i2 < i && 0 <= j2 < P ==> #[trigger] cells@[slot_of(i2, j2)] == dot_chain(
                        a,
                        b,
                        i2,
                        j2,
                        N as int - 1,
                    ),
                idl ==> forall|i2: int, j2: int|
                    0 <= i2 < i && 0 <= j2 < P ==> float_eq_bits(
                        #[trigger] cells@[slot_of(i2, j2)],
                        b[i2][j2],
                    ),
                idr ==> forall|i2: int, j2: int|
                    0 <= i2 < i && 0 <= j2 < P ==> float_eq_bits(
                        #[trigger] cells@[slot_of(i2, j2)],
                        a[i2][j2],
                    ),
            decreases M - i,
        {
            let mut j: usize = 0;
            while j < P
                invariant
                    i < M,
                    j <= P,
                    a == self@,
                    b == rhs@,
                    idl == (is_identity_window(a) && finite_window(b)),
                    idr == (is_identity_window(b) && finite_window(a)),
                    shape_ok(M as int, N as int),
                    shape_ok(N as int, P as int),
                    shape_ok(M as int, P as int),
                    forall|i2: int, j2: int|
                        0 <= i2 < i && 0 <= j2 < P ==> #[trigger] cells@[slot_of(i2, j2)]
                            == dot_chain(a, b, i2, j2, N as int - 1),
                    forall|j2: int|
                        0 <= j2 < j ==> #[trigger] cells@[slot_of(i as int, j2)] == dot_chain(
                            a,
                            b,
                            i as int,
                            j2,
                            N as int - 1,
                        ),
                    idl ==> forall|i2: int, j2: int|
                        0 <= i2 < i && 0 <= j2 < P ==> float_eq_bits(
                            #[trigger] cells@[slot_of(i2, j2)],
                            b[i2][j2],
                        ),
                    idl ==> forall|j2: int|
                        0 <= j2 < j ==> float_eq_bits(
                            #[trigger] cells@[slot_of(i as int, j2)],
                            b[i as int][j2],
                        ),
                    idr ==> forall|i2: int, j2: int|
                        0 <= i2 < i && 0 <= j2 < P ==> float_eq_bits(
                            #[trigger] cells@[slot_of(i2, j2)],
                            a[i2][j2],
                        ),
                    idr ==> forall|j2: int|
                        0 <= j2 < j ==> float_eq_bits(
                            #[trigger] cells@[slot_of(i as int, j2)],
                            a[i as int][j2],
                        ),
                decreases P - j,
            {
                proof {
                    crate::scalar::lemma_const_bits();
                    if idl {
                        assert(a[i as int].len() == a.len());
                        assert(a[i as int][0] == (if i as int == 0 {
                            F32_ONE
                        } else {
                            F32_ZERO
                        }));
                        assert(is_finite_bits(b[0][j as int]));
                        assert(is_finite_bits(b[i as int][j as int]));
                    }
                    if idr {
                        assert(b[0].len() == b.len());
                        assert(b[0][j as int] == (if j as int == 0 {
                            F32_ONE
                        } else {
                            F32_ZERO
                        }));
                        assert(is_finite_bits(a[i as int][0]));
                        assert(is_finite_bits(a[i as int][j as int]));
                    }
                }
                let mut acc = float_mul(self.get(i, 0), rhs.get(0, j));
                let mut k: usize = 1;
                while k < N
                    invariant
                        i < M,
                        j < P,
                        1 <= k <= N,
                        a == self@,
                        b == rhs@,
                        idl == (is_identity_window(a) && finite_window(b)),
                        idr == (is_identity_window(b) && finite_window(a)),
                        shape_ok(M as int, N as int),
                        shape_ok(N as int, P as int),
                        shape_ok(M as int, P as int),
                        acc == dot_chain(a, b, i as int, j as int, k as int - 1),
                        idl ==> (if k <= i {
                            is_zero_bits(acc)
                        } else {
                            zero_or_same(acc, b[i as int][j as int])
                        }),
                        idr ==> (if k <= j {
                            is_zero_bits(acc)
                        } else {
                            zero_or_same(acc, a[i as int][j as int])
                        }),
                    decreases N - k,
                {
                    proof {
                        crate::scalar::lemma_const_bits();
                        if idl {
                            assert(a[i as int][k as int] == (if i as int == k as int {
                                F32_ONE
                            } else {
                                F32_ZERO
                            }));
                            assert(is_finite_bits(b[k as int][j as int]));
                            assert(is_finite_bits(b[i as int][j as int]));
                        }
                        if idr {
                            assert(b[k as int][j as int] == (if k as int == j as int {
                                F32_ONE
                            } else {
                                F32_ZERO
                            }));
                            assert(is_finite_bits(a[i as int][k as int]));
                            assert(is_finite_bits(a[i as int][j as int]));
                        }
                    }
                    let t = float_mul(self.get(i, k), rhs.get(k, j));
                    acc = float_add(acc, t);
                    k += 1;
                }
                proof {
                    crate::scalar::lemma_const_bits();
                    if idl {
                        assert(is_finite_bits(b[i as int][j as int]));
                        assert(float_eq_bits(acc, b[i as int][j as int]));
                    }
                    if idr {
                        assert(is_finite_bits(a[i as int][j as int]));
                        assert(float_eq_bits(acc, a[i as int][j as int]));
                    }
                }
                cells[i * 4 + 3 - j] = acc;
                j += 1;
            }
            i += 1;
        }
        let r = Matrix::<M, P>::from_raw(cells);
        proof {
            assert forall|i2: int, j2: int| 0 <= i2 < M && 0 <= j2 < P implies r@[i2][j2]
                == dot_chain(a, b, i2, j2, N as int - 1) by {
                assert(r@[i2][j2] == cells@[slot_of(i2, j2)]);
            }
            assert(r@ =~~= mul_window(a, b, P as int));
            if idl {
                assert(a[0].len() == a.len());
                assert forall|i2: int| 0 <= i2 < M implies rows_float_eq(r@[i2], b[i2]) by {
                    assert(b[i2].len() == P);
                    assert forall|j2: int| 0 <= j2 < P implies float_eq_bits(
                        r@[i2][j2],
                        b[i2][j2],
                    ) by {
                        assert(r@[i2][j2] == cells@[slot_of(i2, j2)]);
                    }
                }
            }
            if idr {
                assert(b[0].len() == b.len());
                assert forall|i2: int| 0 <= i2 < M implies rows_float_eq(r@[i2], a[i2]) by {
                    assert(a[i2].len() == N);
                    assert forall|j2: int| 0 <= j2 < P implies float_eq_bits(
                        r@[i2][j2],
                        a[i2][j2],
                    ) by {
                        assert(r@[i2][j2] == cells@[slot_of(i2, j2)]);
                    }
                }
            }
        }
        r
    }

    /// The default tolerance of approximate comparison: the square root of
    /// the machine epsilon.
    pub fn default_epsilon() -> (r: u32)
        ensures
            r == F32_SQRT_EPSILON,
    {
        F32_SQRT_EPSILON
    }
}

/// The IEEE-754 inner product of row i of `w` and the vector `v` over the
/// first `k + 1` terms, accumulated left to right.
pub open spec fn row_vec_chain(w: Seq<Seq<u32>>, v: Seq<u32>, i: int, k: int) -> u32
    decreases k,
{
    if k <= 0 {
        mul_bits(w[i][0], v[0])
    } else {
        add_bits(row_vec_chain(w, v, i, k - 1), mul_bits(w[i][k], v[k]))
    }
}

impl<const M: usize, const N: usize> Matrix<M, N> {
    /// The linear map applied to a vector: component i of the result is the
    /// IEEE-754 inner product of row i and the vector, accumulated left to
    /// right.  The padding slot of a 3-component result is +0.0.
    pub fn mul_fvec(&self, rhs: &FVec<N>) -> (r: FVec<M>)
        requires
            shape_ok(M as int, N as int),
            vec_len_ok(M as int),
            vec_len_ok(N as int),
        ensures
            r@ == Seq::new(M as nat, |i: int| row_vec_chain(self@, rhs@, i, N as int - 1)),
    {
        let mut cells: [u32; 4] = [F32_ZERO; 4];
        let mut i: usize = 0;
        while i < M
            invariant
                i <= M,
                shape_ok(M as int, N as int),
                vec_len_ok(M as int),
                vec_len_ok(N as int),
                forall|i2: int|
                    0 <= i2 < i ==> cells@[3 - i2] == #[trigger] row_vec_chain(
                        self@,
                        rhs@,
                        i2,
                        N as int - 1,
                    ),
            decreases M - i,
        {
            let mut acc = float_mul(self.get(i, 0), rhs.component(0));
            let mut k: usize = 1;
            while k < N
                invariant
                    i < M,
                    1 <= k <= N,
                    shape_ok(M as int, N as int),
                    vec_len_ok(N as int),
                    acc == row_vec_chain(self@, rhs@, i as int, k as int - 1),
                decreases N - k,
            {
                acc = float_add(acc, float_mul(self.get(i, k), rhs.component(k)));
                k += 1;
            }
            cells[3 - i] = acc;
            i += 1;
        }
        let r = FVec::<M>::from_raw(cells);
        proof {
            assert(r@ =~= Seq::new(M as nat, |i: int| row_vec_chain(self@, rhs@, i, N as int - 1)));
        }
        r
    }
}

impl Matrix<4, 3> {
    /// The affine map applied to a 3-vector under homogeneous promotion: the
    /// vector is treated as having an implicit fourth coordinate of 1, whose
    /// coefficients are the leading (w) slot of each physical row - the slot
    /// where a 4x4 transform keeps its translation column.  Component i of
    /// the result is the inner product of row i with (x, y, z) plus that
    /// w slot.
    pub fn mul_fvec_h(&self, rhs: &FVec3) -> (r: FVec4)
        ensures
            r@ == Seq::new(4, |i: int| add_bits(
                row_vec_chain(self@, rhs@, i, 2),
                self.raw()[4 * i],
            )),
    {
        let mut cells: [u32; 4] = [F32_ZERO; 4];
        let mut i: usize = 0;
        while i < 4
            invariant
                i <= 4,
                forall|i2: int|
                    0 <= i2 < i ==> cells@[3 - i2] == add_bits(
                        #[trigger] row_vec_chain(self@, rhs@, i2, 2),
                        self.raw()[4 * i2],
                    ),
            decreases 4 - i,
        {
            let mut acc = float_mul(self.get(i, 0), rhs.component(0));
            proof {
                assert(acc == row_vec_chain(self@, rhs@, i as int, 0));
            }
            acc = float_add(acc, float_mul(self.get(i, 1), rhs.component(1)));
            proof {
                assert(acc == row_vec_chain(self@, rhs@, i as int, 1));
            }
            acc = float_add(acc, float_mul(self.get(i, 2), rhs.component(2)));
            proof {
                assert(acc == row_vec_chain(self@, rhs@, i as int, 2));
            }
            acc = float_add(acc, self.raw_at(4 * i));
            cells[3 - i] = acc;
            i += 1;
        }
        let r = FVec::<4>::from_raw(cells);
        proof {
            assert(r@ =~= Seq::new(4, |i: int| add_bits(
                row_vec_chain(self@, rhs@, i, 2),
                self.raw()[4 * i],
            )));
        }
        r
    }
}

impl<const M: usize, const N: usize> PartialEq for Matrix<M, N> {
    /// IEEE-754 equality of the logical windows; padding never takes part,
    /// and any NaN element makes the comparison false.
    fn eq(&self, other: &Self) -> bool {
        if !(M == 3 || M == 4) || N < 1 || N > 4 {
            return false;
        }
        let mut i: usize = 0;
        while i < M
            invariant
                i <= M,
                shape_ok(M as int, N as int),
                forall|i2: int| 0 <= i2 < i ==> rows_float_eq(#[trigger] self@[i2], other@[i2]),
            decreases M - i,
        {
            let mut j: usize = 0;
            while j < N
                invariant
                    i < M,
                    j <= N,
                    shape_ok(M as int, N as int),
                    forall|i2: int| 0 <= i2 < i ==> rows_float_eq(#[trigger] self@[i2], other@[i2]),
                    forall|j2: int|
                        0 <= j2 < j ==> float_eq_bits(
                            #[trigger] self@[i as int][j2],
                            other@[i as int][j2],
                        ),
                decreases N - j,
            {
                if !float_eq(self.get(i, j), other.get(i, j)) {
                    proof {
                        assert(!rows_float_eq(self@[i as int], other@[i as int]));
                    }
                    return false;
                }
                j += 1;
            }
            proof {
                assert(rows_float_eq(self@[i as int], other@[i as int]));
            }
            i += 1;
        }
        true
    }
}

impl<const M: usize, const N: usize> vstd::std_specs::cmp::PartialEqSpecImpl for Matrix<M, N> {
    open spec fn obeys_eq_spec() -> bool {
        true
    }

    open spec fn eq_spec(&self, other: &Self) -> bool {
        shape_ok(M as int, N as int) && windows_float_eq(self@, other@)
    }
}

} // verus!
