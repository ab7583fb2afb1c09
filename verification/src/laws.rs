//! Algebraic laws of the vector and matrix operations, stated over all
//! inputs and proved.
//!
//! IEEE-754 rounding makes most textbook identities false in general, so
//! each law here states exactly what does hold of the implemented
//! operations, bit for bit where possible.  The identity-multiplication law
//! is part of [`Matrix::mul`]'s own contract; the laws that relate several
//! operations stand here.

use vstd::prelude::*;

use crate::fvec::{splat_row, vec_len_ok, FVec};
use crate::matrix::{
    diagonal_window, nan_free_window, rows_float_eq, shape_ok, transpose_window, windows_float_eq,
    Matrix, Matrix3, Matrix4,
};
use crate::scalar::{
    add_bits, div_bits, float_eq_bits, lemma_const_bits, mul_bits, neg_bits, sub_bits, F32_ONE,
};

verus! {

/// splat(a) + splat(b) is splat of the scalar sum a + b, bit for bit.
pub fn law_splat_add<const N: usize>(a: u32, b: u32) -> (s: FVec<N>)
    requires
        vec_len_ok(N as int),
    ensures
        s@ == splat_row(N as int, add_bits(a, b)),
{
    let l = FVec::<N>::splat(a);
    let r = FVec::<N>::splat(b);
    let s = l.add(&r);
    proof {
        assert(s@ =~= splat_row(N as int, add_bits(a, b)));
    }
    s
}

/// splat(a) - splat(b) is splat of the scalar difference a - b, bit for bit.
pub fn law_splat_sub<const N: usize>(a: u32, b: u32) -> (s: FVec<N>)
    requires
        vec_len_ok(N as int),
    ensures
        s@ == splat_row(N as int, sub_bits(a, b)),
{
    let l = FVec::<N>::splat(a);
    let r = FVec::<N>::splat(b);
    let s = l.sub(&r);
    proof {
        assert(s@ =~= splat_row(N as int, sub_bits(a, b)));
    }
    s
}

/// -splat(a) is splat of the scalar negation -a, bit for bit.
pub fn law_splat_neg<const N: usize>(a: u32) -> (s: FVec<N>)
    requires
        vec_len_ok(N as int),
    ensures
        s@ == splat_row(N as int, neg_bits(a)),
{
    let s = FVec::<N>::splat(a).neg();
    proof {
        assert(s@ =~= splat_row(N as int, neg_bits(a)));
    }
    s
}

/// splat(a) * k is splat of the scalar product a * k, bit for bit.
pub fn law_splat_scale<const N: usize>(a: u32, k: u32) -> (s: FVec<N>)
    requires
        vec_len_ok(N as int),
    ensures
        s@ == splat_row(N as int, mul_bits(a, k)),
{
    let s = FVec::<N>::splat(a).mul(k);
    proof {
        assert(s@ =~= splat_row(N as int, mul_bits(a, k)));
    }
    s
}

/// splat(a) / k is splat of a * (1/k), bit for bit: division is a scale by
/// the rounded reciprocal, so it matches splat(a / k) only approximately.
pub fn law_splat_div<const N: usize>(a: u32, k: u32) -> (s: FVec<N>)
    requires
        vec_len_ok(N as int),
    ensures
        s@ == splat_row(N as int, mul_bits(a, div_bits(F32_ONE, k))),
{
    let s = FVec::<N>::splat(a).div(k);
    proof {
        assert(s@ =~= splat_row(N as int, mul_bits(a, div_bits(F32_ONE, k))));
    }
    s
}

/// diagonal(x, y, z) + identity() is diagonal(x + 1, y + 1, z + 1), bit for
/// bit: the diagonal gains exactly 1.0 and the zeros stay +0.0.
pub fn law_diagonal3_add_identity(x: u32, y: u32, z: u32) -> (s: Matrix3)
    ensures
        s@ == diagonal_window(
            seq![add_bits(x, F32_ONE), add_bits(y, F32_ONE), add_bits(z, F32_ONE)],
        ),
{
    let d = Matrix3::diagonal(x, y, z);
    let i = Matrix3::identity();
    let s = d.add(&i);
    proof {
        lemma_const_bits();
        assert(s@ =~~= diagonal_window(
            seq![add_bits(x, F32_ONE), add_bits(y, F32_ONE), add_bits(z, F32_ONE)],
        ));
    }
    s
}

/// diagonal(x, y, z) - identity() is diagonal(x - 1, y - 1, z - 1), bit for
/// bit: the diagonal loses exactly 1.0 and the zeros stay +0.0.
pub fn law_diagonal3_sub_identity(x: u32, y: u32, z: u32) -> (s: Matrix3)
    ensures
        s@ == diagonal_window(
            seq![sub_bits(x, F32_ONE), sub_bits(y, F32_ONE), sub_bits(z, F32_ONE)],
        ),
{
    let d = Matrix3::diagonal(x, y, z);
    let i = Matrix3::identity();
    let s = d.sub(&i);
    proof {
        lemma_const_bits();
        assert(s@ =~~= diagonal_window(
            seq![sub_bits(x, F32_ONE), sub_bits(y, F32_ONE), sub_bits(z, F32_ONE)],
        ));
    }
    s
}

/// diagonal(x, y, z, w) + identity() is diagonal(x + 1, y + 1, z + 1, w + 1),
/// bit for bit.
pub fn law_diagonal4_add_identity(x: u32, y: u32, z: u32, w: u32) -> (s: Matrix4)
    ensures
        s@ == diagonal_window(
            seq![
                add_bits(x, F32_ONE),
                add_bits(y, F32_ONE),
                add_bits(z, F32_ONE),
                add_bits(w, F32_ONE),
            ],
        ),
{
    let d = Matrix4::diagonal(x, y, z, w);
    let i = Matrix4::identity();
    let s = d.add(&i);
    proof {
        lemma_const_bits();
        assert(s@ =~~= diagonal_window(
            seq![
                add_bits(x, F32_ONE),
                add_bits(y, F32_ONE),
                add_bits(z, F32_ONE),
                add_bits(w, F32_ONE),
            ],
        ));
    }
    s
}

/// diagonal(x, y, z, w) - identity() is diagonal(x - 1, y - 1, z - 1, w - 1),
/// bit for bit.
pub fn law_diagonal4_sub_identity(x: u32, y: u32, z: u32, w: u32) -> (s: Matrix4)
    ensures
        s@ == diagonal_window(
            seq![
                sub_bits(x, F32_ONE),
                sub_bits(y, F32_ONE),
                sub_bits(z, F32_ONE),
                sub_bits(w, F32_ONE),
            ],
        ),
{
    let d = Matrix4::diagonal(x, y, z, w);
    let i = Matrix4::identity();
    let s = d.sub(&i);
    proof {
        lemma_const_bits();
        assert(s@ =~~= diagonal_window(
            seq![
                sub_bits(x, F32_ONE),
                sub_bits(y, F32_ONE),
                sub_bits(z, F32_ONE),
                sub_bits(w, F32_ONE),
            ],
        ));
    }
    s
}

/// Transposing twice is the identity on the logical window, bit for bit,
/// for every shape.
pub proof fn lemma_transpose_involution(w: Seq<Seq<u32>>, m: int, n: int)
    requires
        w.len() == m,
        1 <= m,
        1 <= n,
        forall|i: int| 0 <= i < m ==> (#[trigger] w[i]).len() == n,
    ensures
        transpose_window(transpose_window(w)) == w,
{
    let t = transpose_window(w);
    assert(t.len() == n);
    assert(forall|i: int| 0 <= i < n ==> (#[trigger] t[i]).len() == m);
    assert forall|i: int| 0 <= i < m implies transpose_window(t)[i] =~= w[i] by {
        assert(forall|j: int| 0 <= j < n ==> transpose_window(t)[i][j] == #[trigger] t[j][i]);
    }
    assert(transpose_window(transpose_window(w)) =~~= w);
}

/// Transposing a matrix twice gives back the original logical window, bit
/// for bit (and so a matrix equal to the original wherever no NaN is
/// present).
pub fn law_transpose_involution<const M: usize, const N: usize>(m: &Matrix<M, N>) -> (r: Matrix<
    M,
    N,
>)
    requires
        shape_ok(M as int, N as int),
        shape_ok(N as int, M as int),
    ensures
        r@ == m@,
{
    let t = (*m).transpose();
    let r = t.transpose();
    proof {
        lemma_transpose_involution(m@, M as int, N as int);
    }
    r
}

/// Equality ignores padding: `==` reads the logical windows alone, so two
/// matrices with the same window compare equal whatever their padding
/// holds, as long as no element is a NaN (a NaN differs even from itself).
pub proof fn lemma_eq_ignores_padding<const M: usize, const N: usize>(
    a: Matrix<M, N>,
    b: Matrix<M, N>,
)
    requires
        a@ == b@,
        nan_free_window(a@),
    ensures
        windows_float_eq(a@, b@),
{
    assert forall|i: int| 0 <= i < a@.len() implies rows_float_eq(a@[i], b@[i]) by {
        assert forall|j: int| 0 <= j < a@[i].len() implies float_eq_bits(a@[i][j], b@[i][j]) by {
            assert(!crate::scalar::is_nan_bits(a@[i][j]));
        }
    }
}

} // verus!
