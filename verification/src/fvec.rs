//! Fixed-size vectors of IEEE-754 single-precision scalars.
//!
//! A vector occupies a 4-slot block whatever its logical length; the logical
//! components are right-aligned in reverse (WZYX) order, so component `j`
//! lives in physical slot `3 - j`.  The leading slot of a 3-vector is
//! padding and never takes part in comparisons.

use vstd::prelude::*;

use crate::matrix::{rows_float_eq, rows_abs_diff_le};
use crate::scalar::{
    add_bits, sub_bits, mul_bits, div_bits, neg_bits, float_add, float_sub, float_mul, float_div,
    float_neg, float_abs, float_le, float_eq, float_eq_bits, abs_diff_le_bits, F32_ZERO, F32_ONE,
    F32_SQRT_EPSILON,
};

verus! {

/// The logical lengths a vector may have.
pub open spec fn vec_len_ok(n: int) -> bool {
    n == 3 || n == 4
}

/// A length-n row where every component is `v`.
pub open spec fn splat_row(n: int, v: u32) -> Seq<u32> {
    Seq::new(n as nat, |j: int| v)
}

/// The element-wise IEEE-754 sum of two rows.
pub open spec fn add_row(a: Seq<u32>, b: Seq<u32>) -> Seq<u32> {
    Seq::new(a.len(), |j: int| add_bits(a[j], b[j]))
}

/// The element-wise IEEE-754 difference of two rows.
pub open spec fn sub_row(a: Seq<u32>, b: Seq<u32>) -> Seq<u32> {
    Seq::new(a.len(), |j: int| sub_bits(a[j], b[j]))
}

/// The element-wise IEEE-754 negation of a row.
pub open spec fn neg_row(a: Seq<u32>) -> Seq<u32> {
    Seq::new(a.len(), |j: int| neg_bits(a[j]))
}

/// The row scaled element-wise by the IEEE-754 product with `s`.
pub open spec fn scale_row(a: Seq<u32>, s: u32) -> Seq<u32> {
    Seq::new(a.len(), |j: int| mul_bits(a[j], s))
}

/// An `N`-component vector of IEEE-754 single-precision scalars, stored as
/// raw bit patterns in the hardware's 4-slot WZYX register format.
#[derive(Clone, Copy, Debug)]
pub struct FVec<const N: usize> {
    cells: [u32; 4],
}

/// A 3-component vector.
pub type FVec3 = FVec<3>;

/// A 4-component vector.
pub type FVec4 = FVec<4>;

impl<const N: usize> View for FVec<N> {
    type V = Seq<u32>;

    open spec fn view(&self) -> Seq<u32> {
        Seq::new(N as nat, |j: int| self.comp(j))
    }
}

impl<const N: usize> FVec<N> {
    /// The raw 4-slot block, in the order the hardware consumes it.
    pub closed spec fn raw(self) -> Seq<u32> {
        self.cells@
    }

    /// Logical component j, read from its WZYX slot of the raw block.
    pub open spec fn comp(self, j: int) -> u32 {
        self.raw()[3 - j]
    }

    /// Wrap a raw 4-slot block as a vector.
    pub fn from_raw(cells: [u32; 4]) -> (r: Self)
        requires
            vec_len_ok(N as int),
        ensures
            r.raw() == cells@,
    {
        FVec { cells }
    }

    /// Hand out the raw 4-slot block, in the order the hardware consumes it.
    pub fn into_raw(self) -> (r: [u32; 4])
        ensures
            r@ == self.raw(),
    {
        self.cells
    }

    /// Logical component j.
    pub fn component(&self, j: usize) -> (r: u32)
        requires
            j < N,
            vec_len_ok(N as int),
        ensures
            r == self.comp(j as int),
            r == self@[j as int],
    {
        self.cells[3 - j]
    }

    /// A vector with every logical component (and the padding slot, if any)
    /// equal to `v`.
    pub fn splat(v: u32) -> (r: Self)
        requires
            vec_len_ok(N as int),
        ensures
            r@ == splat_row(N as int, v),
            forall|k: int| 0 <= k < 4 ==> r.raw()[k] == v,
    {
        let r = FVec::<N> { cells: [v; 4] };
        proof {
            assert(r@ =~= splat_row(N as int, v));
        }
        r
    }

    /// Element-wise sum.  Every raw slot is the IEEE-754 sum of the
    /// operands' slots.
    pub fn add(&self, rhs: &Self) -> (r: Self)
        requires
            vec_len_ok(N as int),
        ensures
            forall|k: int| 0 <= k < 4 ==> r.raw()[k] == add_bits(self.raw()[k], rhs.raw()[k]),
            r@ == add_row(self@, rhs@),
    {
        let c = [
            float_add(self.cells[0], rhs.cells[0]),
            float_add(self.cells[1], rhs.cells[1]),
            float_add(self.cells[2], rhs.cells[2]),
            float_add(self.cells[3], rhs.cells[3]),
        ];
        let r = FVec::<N> { cells: c };
        proof {
            assert(r@ =~= add_row(self@, rhs@));
        }
        r
    }

    /// Element-wise difference.  Every raw slot is the IEEE-754 difference
    /// of the operands' slots.
    pub fn sub(&self, rhs: &Self) -> (r: Self)
        requires
            vec_len_ok(N as int),
        ensures
            forall|k: int| 0 <= k < 4 ==> r.raw()[k] == sub_bits(self.raw()[k], rhs.raw()[k]),
            r@ == sub_row(self@, rhs@),
    {
        let c = [
            float_sub(self.cells[0], rhs.cells[0]),
            float_sub(self.cells[1], rhs.cells[1]),
            float_sub(self.cells[2], rhs.cells[2]),
            float_sub(self.cells[3], rhs.cells[3]),
        ];
        let r = FVec::<N> { cells: c };
        proof {
            assert(r@ =~= sub_row(self@, rhs@));
        }
        r
    }

    /// Element-wise IEEE-754 negation: the sign bit of every raw slot flips.
    pub fn neg(&self) -> (r: Self)
        requires
            vec_len_ok(N as int),
        ensures
            forall|k: int| 0 <= k < 4 ==> r.raw()[k] == neg_bits(self.raw()[k]),
            r@ == neg_row(self@),
    {
        let c = [
            float_neg(self.cells[0]),
            float_neg(self.cells[1]),
            float_neg(self.cells[2]),
            float_neg(self.cells[3]),
        ];
        let r = FVec::<N> { cells: c };
        proof {
            assert(r@ =~= neg_row(self@));
        }
        r
    }

    /// Scale by a scalar: every raw slot is the IEEE-754 product with `rhs`.
    pub fn mul(&self, rhs: u32) -> (r: Self)
        requires
            vec_len_ok(N as int),
        ensures
            forall|k: int| 0 <= k < 4 ==> r.raw()[k] == mul_bits(self.raw()[k], rhs),
            r@ == scale_row(self@, rhs),
    {
        let c = [
            float_mul(self.cells[0], rhs),
            float_mul(self.cells[1], rhs),
            float_mul(self.cells[2], rhs),
            float_mul(self.cells[3], rhs),
        ];
        let r = FVec::<N> { cells: c };
        proof {
            assert(r@ =~= scale_row(self@, rhs));
        }
        r
    }

    /// Divide by a scalar, performed as a scale by the IEEE-754 reciprocal
    /// `1.0 / rhs` (the hardware has no per-element divide).  Dividing by
    /// zero therefore yields infinities or NaNs, not a failure.
    pub fn div(&self, rhs: u32) -> (r: Self)
        requires
            vec_len_ok(N as int),
        ensures
            forall|k: int|
                0 <= k < 4 ==> r.raw()[k] == mul_bits(self.raw()[k], div_bits(F32_ONE, rhs)),
            r@ == scale_row(self@, div_bits(F32_ONE, rhs)),
    {
        let recip = float_div(F32_ONE, rhs);
        self.mul(recip)
    }

    /// Approximate equality over the logical components only: every pair
    /// must satisfy |a - b| <= epsilon under IEEE-754 arithmetic, so the
    /// comparison is false whenever a compared component is a NaN.
    pub fn abs_diff_eq(&self, other: &Self, epsilon: u32) -> (r: bool)
        requires
            vec_len_ok(N as int),
        ensures
            r == rows_abs_diff_le(self@, other@, epsilon),
    {
        let mut j: usize = 0;
        while j < N
            invariant
                j <= N,
                vec_len_ok(N as int),
                forall|j2: int|
                    0 <= j2 < j ==> abs_diff_le_bits(#[trigger] self@[j2], other@[j2], epsilon),
            decreases N - j,
        {
            let d = float_sub(self.component(j), other.component(j));
            if !float_le(float_abs(d), epsilon) {
                proof {
                    assert(!rows_abs_diff_le(self@, other@, epsilon));
                }
                return false;
            }
            j += 1;
        }
        true
    }

    /// The default tolerance of approximate comparison: the square root of
    /// the machine epsilon.
    pub fn default_epsilon() -> (r: u32)
        ensures
            r == F32_SQRT_EPSILON,
    {
        F32_SQRT_EPSILON
    }
}

/// The IEEE-754 inner product of two 3-component rows, accumulated left to
/// right.
pub open spec fn dot3_bits(a: Seq<u32>, b: Seq<u32>) -> u32 {
    add_bits(add_bits(mul_bits(a[0], b[0]), mul_bits(a[1], b[1])), mul_bits(a[2], b[2]))
}

/// The IEEE-754 cross product of two 3-component rows.
pub open spec fn cross_bits(a: Seq<u32>, b: Seq<u32>) -> Seq<u32> {
    seq![
        sub_bits(mul_bits(a[1], b[2]), mul_bits(a[2], b[1])),
        sub_bits(mul_bits(a[2], b[0]), mul_bits(a[0], b[2])),
        sub_bits(mul_bits(a[0], b[1]), mul_bits(a[1], b[0])),
    ]
}

impl FVec3 {
    /// The inner product with another 3-vector, accumulated left to right.
    pub fn dot(&self, rhs: &FVec3) -> (r: u32)
        ensures
            r == dot3_bits(self@, rhs@),
    {
        float_add(
            float_add(
                float_mul(self.component(0), rhs.component(0)),
                float_mul(self.component(1), rhs.component(1)),
            ),
            float_mul(self.component(2), rhs.component(2)),
        )
    }

    /// The cross product with another 3-vector, in the right-handed
    /// convention; the padding slot of the result is +0.0.
    pub fn cross(&self, rhs: &FVec3) -> (r: FVec3)
        ensures
            r@ == cross_bits(self@, rhs@),
    {
        let x = float_sub(
            float_mul(self.component(1), rhs.component(2)),
            float_mul(self.component(2), rhs.component(1)),
        );
        let y = float_sub(
            float_mul(self.component(2), rhs.component(0)),
            float_mul(self.component(0), rhs.component(2)),
        );
        let z = float_sub(
            float_mul(self.component(0), rhs.component(1)),
            float_mul(self.component(1), rhs.component(0)),
        );
        let r = FVec3::new(x, y, z);
        proof {
            assert(r@ =~= cross_bits(self@, rhs@));
        }
        r
    }

    /// A 3-vector from its components; the padding slot is +0.0.
    pub fn new(x: u32, y: u32, z: u32) -> (r: Self)
        ensures
            r@ == seq![x, y, z],
            r.raw() == seq![F32_ZERO, z, y, x],
    {
        let r = FVec::<3> { cells: [F32_ZERO, z, y, x] };
        proof {
            assert(r@ =~= seq![x, y, z]);
            assert(r.raw() =~= seq![F32_ZERO, z, y, x]);
        }
        r
    }
}

impl FVec4 {
    /// A 4-vector from its components.
    pub fn new(x: u32, y: u32, z: u32, w: u32) -> (r: Self)
        ensures
            r@ == seq![x, y, z, w],
            r.raw() == seq![w, z, y, x],
    {
        let r = FVec::<4> { cells: [w, z, y, x] };
        proof {
            assert(r@ =~= seq![x, y, z, w]);
            assert(r.raw() =~= seq![w, z, y, x]);
        }
        r
    }
}

impl<const N: usize> PartialEq for FVec<N> {
    /// IEEE-754 equality of the logical components; padding never takes
    /// part, and any NaN component makes the comparison false.
    fn eq(&self, other: &Self) -> bool {
        if !(N == 3 || N == 4) {
            return false;
        }
        let mut j: usize = 0;
        while j < N
            invariant
                j <= N,
                vec_len_ok(N as int),
                forall|j2: int| 0 <= j2 < j ==> float_eq_bits(#[trigger] self@[j2], other@[j2]),
            decreases N - j,
        {
            if !float_eq(self.component(j), other.component(j)) {
                proof {
                    assert(!rows_float_eq(self@, other@));
                }
                return false;
            }
            j += 1;
        }
        true
    }
}

impl<const N: usize> vstd::std_specs::cmp::PartialEqSpecImpl for FVec<N> {
    open spec fn obeys_eq_spec() -> bool {
        true
    }

    open spec fn eq_spec(&self, other: &Self) -> bool {
        vec_len_ok(N as int) && rows_float_eq(self@, other@)
    }
}

} // verus!
