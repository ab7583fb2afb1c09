//! In-place composition of geometric transforms into a 4x4 transform matrix.
//!
//! Each operation composes a new transform `T` on the right of the existing
//! matrix `S`, giving `S * T`: applied to a (column) coordinate vector, the
//! new transform acts first and the existing matrix's effect follows.  This
//! is the one composition order exposed here; the reversed order is not.
//!
//! The rotations take the sine and cosine of the angle as scalars, since
//! evaluating the trigonometric functions themselves is outside this
//! library's arithmetic; the angle convention is the right-handed one (a
//! positive angle turns counterclockwise seen from the positive axis end).

use vstd::prelude::*;

use crate::fvec::FVec3;
use crate::matrix::{slot_of, Matrix4};
use crate::ops::mul_window;
use crate::scalar::{
    add_bits, float_add, float_mul, float_sub, mul_bits, sub_bits, F32_ONE, F32_ZERO,
};

verus! {

broadcast use crate::matrix::lemma_matrix_raw_len;

/// The axis-angle (Rodrigues) rotation matrix of a unit axis `a` and an
/// angle with sine `sn` and cosine `cs`: cs on the diagonal plus
/// (1 - cs) times the outer product of the axis with itself, plus sn times
/// the axis's cross-product matrix; bordered by the homogeneous row and
/// column of a 4x4 transform.
pub open spec fn rotation_window(a: Seq<u32>, sn: u32, cs: u32) -> Seq<Seq<u32>> {
    seq![
        seq![
            add_bits(cs, mul_bits(sub_bits(F32_ONE, cs), mul_bits(a[0], a[0]))),
            sub_bits(mul_bits(sub_bits(F32_ONE, cs), mul_bits(a[0], a[1])), mul_bits(sn, a[2])),
            add_bits(mul_bits(sub_bits(F32_ONE, cs), mul_bits(a[0], a[2])), mul_bits(sn, a[1])),
            F32_ZERO,
        ],
        seq![
            add_bits(mul_bits(sub_bits(F32_ONE, cs), mul_bits(a[1], a[0])), mul_bits(sn, a[2])),
            add_bits(cs, mul_bits(sub_bits(F32_ONE, cs), mul_bits(a[1], a[1]))),
            sub_bits(mul_bits(sub_bits(F32_ONE, cs), mul_bits(a[1], a[2])), mul_bits(sn, a[0])),
            F32_ZERO,
        ],
        seq![
            sub_bits(mul_bits(sub_bits(F32_ONE, cs), mul_bits(a[2], a[0])), mul_bits(sn, a[1])),
            add_bits(mul_bits(sub_bits(F32_ONE, cs), mul_bits(a[2], a[1])), mul_bits(sn, a[0])),
            add_bits(cs, mul_bits(sub_bits(F32_ONE, cs), mul_bits(a[2], a[2]))),
            F32_ZERO,
        ],
        seq![F32_ZERO, F32_ZERO, F32_ZERO, F32_ONE],
    ]
}

impl Matrix4 {
    /// Compose a translation by (x, y, z): the last (w) column becomes the
    /// inner product of each row with (x, y, z, 1), exactly as multiplying
    /// on the right by the translation matrix of (x, y, z) computes it.
    /// The other columns do not change.
    pub fn translate(&mut self, x: u32, y: u32, z: u32)
        ensures
            forall|i: int|
                0 <= i < 4 ==> final(self).entry(i, 3) == add_bits(
                    add_bits(
                        add_bits(
                            mul_bits(old(self).entry(i, 0), x),
                            mul_bits(old(self).entry(i, 1), y),
                        ),
                        mul_bits(old(self).entry(i, 2), z),
                    ),
                    old(self).entry(i, 3),
                ),
            forall|i: int, j: int|
                0 <= i < 4 && 0 <= j < 3 ==> final(self).entry(i, j) == old(self).entry(i, j),
    {
        let v0 = float_add(
            float_add(
                float_add(float_mul(self.get(0, 0), x), float_mul(self.get(0, 1), y)),
                float_mul(self.get(0, 2), z),
            ),
            self.get(0, 3),
        );
        let v1 = float_add(
            float_add(
                float_add(float_mul(self.get(1, 0), x), float_mul(self.get(1, 1), y)),
                float_mul(self.get(1, 2), z),
            ),
            self.get(1, 3),
        );
        let v2 = float_add(
            float_add(
                float_add(float_mul(self.get(2, 0), x), float_mul(self.get(2, 1), y)),
                float_mul(self.get(2, 2), z),
            ),
            self.get(2, 3),
        );
        let v3 = float_add(
            float_add(
                float_add(float_mul(self.get(3, 0), x), float_mul(self.get(3, 1), y)),
                float_mul(self.get(3, 2), z),
            ),
            self.get(3, 3),
        );
        self.set_entry(0, 3, v0);
        self.set_entry(1, 3, v1);
        self.set_entry(2, 3, v2);
        self.set_entry(3, 3, v3);
        proof {
            assert(self.entry(0, 3) == v0);
            assert(self.entry(1, 3) == v1);
            assert(self.entry(2, 3) == v2);
            assert(self.entry(3, 3) == v3);
            assert forall|i: int| 0 <= i < 4 implies self.entry(i, 3) == add_bits(
                add_bits(
                    add_bits(
                        mul_bits(old(self).entry(i, 0), x),
                        mul_bits(old(self).entry(i, 1), y),
                    ),
                    mul_bits(old(self).entry(i, 2), z),
                ),
                old(self).entry(i, 3),
            ) by {
                if i == 0 {
                } else if i == 1 {
                } else if i == 2 {
                } else {
                    assert(i == 3);
                }
            }
            assert forall|i: int, j: int| 0 <= i < 4 && 0 <= j < 3 implies self.entry(i, j)
                == old(self).entry(i, j) by {
                assert(slot_of(i, j) == 4 * i + 3 - j);
            }
        }
    }

    /// Compose a scale by (x, y, z): the first three columns are multiplied
    /// element-wise by the respective factor, exactly as multiplying on the
    /// right by the diagonal matrix of (x, y, z, 1) computes it.  The last
    /// column does not change.
    pub fn scale(&mut self, x: u32, y: u32, z: u32)
        ensures
            forall|i: int|
                0 <= i < 4 ==> final(self).entry(i, 0) == mul_bits(old(self).entry(i, 0), x),
            forall|i: int|
                0 <= i < 4 ==> final(self).entry(i, 1) == mul_bits(old(self).entry(i, 1), y),
            forall|i: int|
                0 <= i < 4 ==> final(self).entry(i, 2) == mul_bits(old(self).entry(i, 2), z),
            forall|i: int| 0 <= i < 4 ==> final(self).entry(i, 3) == old(self).entry(i, 3),
    {
        let mut i: usize = 0;
        while i < 4
            invariant
                i <= 4,
                forall|i2: int, j: int|
                    i <= i2 < 4 && 0 <= j < 4 ==> #[trigger] self.entry(i2, j) == old(self).entry(
                        i2,
                        j,
                    ),
                forall|i2: int|
                    0 <= i2 < i ==> self.entry(i2, 0) == mul_bits(old(self).entry(i2, 0), x),
                forall|i2: int|
                    0 <= i2 < i ==> self.entry(i2, 1) == mul_bits(old(self).entry(i2, 1), y),
                forall|i2: int|
                    0 <= i2 < i ==> self.entry(i2, 2) == mul_bits(old(self).entry(i2, 2), z),
                forall|i2: int| 0 <= i2 < i ==> self.entry(i2, 3) == old(self).entry(i2, 3),
            decreases 4 - i,
        {
            let ghost prev = *self;
            let v0 = float_mul(self.get(i, 0), x);
            let v1 = float_mul(self.get(i, 1), y);
            let v2 = float_mul(self.get(i, 2), z);
            self.set_entry(i, 0, v0);
            self.set_entry(i, 1, v1);
            self.set_entry(i, 2, v2);
            proof {
                assert forall|i2: int, j: int|
                    0 <= i2 < 4 && 0 <= j < 4 && i2 != i as int implies #[trigger] self.entry(
                    i2,
                    j,
                ) == prev.entry(i2, j) by {
                    assert(slot_of(i2, j) == 4 * i2 + 3 - j);
                }
                assert(self.entry(i as int, 0) == v0);
                assert(self.entry(i as int, 1) == v1);
                assert(self.entry(i as int, 2) == v2);
                assert(self.entry(i as int, 3) == prev.entry(i as int, 3));
            }
            i += 1;
        }
    }

    /// Compose a rotation about an arbitrary axis, given the axis as a unit
    /// vector and the sine and cosine of the angle (the normalization and
    /// the trigonometry are outside this library's arithmetic): the matrix
    /// becomes its product with the axis-angle rotation matrix on the
    /// right.
    #[verifier::rlimit(30)]
    pub fn rotate(&mut self, axis: &FVec3, sn: u32, cs: u32)
        ensures
            final(self)@ == mul_window(old(self)@, rotation_window(axis@, sn, cs), 4),
    {
        let x = axis.component(0);
        let y = axis.component(1);
        let z = axis.component(2);
        let t = float_sub(F32_ONE, cs);
        let mut cells: [u32; 16] = [F32_ZERO; 16];
        cells[3] = float_add(cs, float_mul(t, float_mul(x, x)));
        cells[2] = float_sub(float_mul(t, float_mul(x, y)), float_mul(sn, z));
        cells[1] = float_add(float_mul(t, float_mul(x, z)), float_mul(sn, y));
        cells[7] = float_add(float_mul(t, float_mul(y, x)), float_mul(sn, z));
        cells[6] = float_add(cs, float_mul(t, float_mul(y, y)));
        cells[5] = float_sub(float_mul(t, float_mul(y, z)), float_mul(sn, x));
        cells[11] = float_sub(float_mul(t, float_mul(z, x)), float_mul(sn, y));
        cells[10] = float_add(float_mul(t, float_mul(z, y)), float_mul(sn, x));
        cells[9] = float_add(cs, float_mul(t, float_mul(z, z)));
        cells[12] = F32_ONE;
        let rot = Matrix4::from_raw(cells);
        proof {
            assert(rot@ =~~= rotation_window(axis@, sn, cs));
        }
        let cur = *self;
        *self = cur.mul(&rot);
    }

    /// Compose a rotation about the X axis, given the sine and cosine of
    /// the angle: columns y and z are recombined as y*c + z*s and
    /// z*c - y*s, exactly as multiplying on the right by the X rotation
    /// matrix computes it.  Columns x and w do not change.
    pub fn rotate_x(&mut self, s: u32, c: u32)
        ensures
            forall|i: int|
                0 <= i < 4 ==> final(self).entry(i, 1) == add_bits(
                    mul_bits(old(self).entry(i, 1), c),
                    mul_bits(old(self).entry(i, 2), s),
                ),
            forall|i: int|
                0 <= i < 4 ==> final(self).entry(i, 2) == sub_bits(
                    mul_bits(old(self).entry(i, 2), c),
                    mul_bits(old(self).entry(i, 1), s),
                ),
            forall|i: int| 0 <= i < 4 ==> final(self).entry(i, 0) == old(self).entry(i, 0),
            forall|i: int| 0 <= i < 4 ==> final(self).entry(i, 3) == old(self).entry(i, 3),
    {
        let mut i: usize = 0;
        while i < 4
            invariant
                i <= 4,
                forall|i2: int, j: int|
                    i <= i2 < 4 && 0 <= j < 4 ==> #[trigger] self.entry(i2, j) == old(self).entry(
                        i2,
                        j,
                    ),
                forall|i2: int|
                    0 <= i2 < i ==> self.entry(i2, 1) == add_bits(
                        mul_bits(old(self).entry(i2, 1), c),
                        mul_bits(old(self).entry(i2, 2), s),
                    ),
                forall|i2: int|
                    0 <= i2 < i ==> self.entry(i2, 2) == sub_bits(
                        mul_bits(old(self).entry(i2, 2), c),
                        mul_bits(old(self).entry(i2, 1), s),
                    ),
                forall|i2: int| 0 <= i2 < i ==> self.entry(i2, 0) == old(self).entry(i2, 0),
                forall|i2: int| 0 <= i2 < i ==> self.entry(i2, 3) == old(self).entry(i2, 3),
            decreases 4 - i,
        {
            let ghost prev = *self;
            let ny = float_add(float_mul(self.get(i, 1), c), float_mul(self.get(i, 2), s));
            let nz = float_sub(float_mul(self.get(i, 2), c), float_mul(self.get(i, 1), s));
            self.set_entry(i, 1, ny);
            self.set_entry(i, 2, nz);
            proof {
                assert forall|i2: int, j: int|
                    0 <= i2 < 4 && 0 <= j < 4 && i2 != i as int implies #[trigger] self.entry(
                    i2,
                    j,
                ) == prev.entry(i2, j) by {
                    assert(slot_of(i2, j) == 4 * i2 + 3 - j);
                }
                assert(self.entry(i as int, 1) == ny);
                assert(self.entry(i as int, 2) == nz);
                assert(self.entry(i as int, 0) == prev.entry(i as int, 0));
                assert(self.entry(i as int, 3) == prev.entry(i as int, 3));
            }
            i += 1;
        }
    }

    /// Compose a rotation about the Y axis, given the sine and cosine of
    /// the angle: columns x and z are recombined as x*c - z*s and
    /// x*s + z*c.  Columns y and w do not change.
    pub fn rotate_y(&mut self, s: u32, c: u32)
        ensures
            forall|i: int|
                0 <= i < 4 ==> final(self).entry(i, 0) == sub_bits(
                    mul_bits(old(self).entry(i, 0), c),
                    mul_bits(old(self).entry(i, 2), s),
                ),
            forall|i: int|
                0 <= i < 4 ==> final(self).entry(i, 2) == add_bits(
                    mul_bits(old(self).entry(i, 0), s),
                    mul_bits(old(self).entry(i, 2), c),
                ),
            forall|i: int| 0 <= i < 4 ==> final(self).entry(i, 1) == old(self).entry(i, 1),
            forall|i: int| 0 <= i < 4 ==> final(self).entry(i, 3) == old(self).entry(i, 3),
    {
        let mut i: usize = 0;
        while i < 4
            invariant
                i <= 4,
                forall|i2: int, j: int|
                    i <= i2 < 4 && 0 <= j < 4 ==> #[trigger] self.entry(i2, j) == old(self).entry(
                        i2,
                        j,
                    ),
                forall|i2: int|
                    0 <= i2 < i ==> self.entry(i2, 0) == sub_bits(
                        mul_bits(old(self).entry(i2, 0), c),
                        mul_bits(old(self).entry(i2, 2), s),
                    ),
                forall|i2: int|
                    0 <= i2 < i ==> self.entry(i2, 2) == add_bits(
                        mul_bits(old(self).entry(i2, 0), s),
                        mul_bits(old(self).entry(i2, 2), c),
                    ),
                forall|i2: int| 0 <= i2 < i ==> self.entry(i2, 1) == old(self).entry(i2, 1),
                forall|i2: int| 0 <= i2 < i ==> self.entry(i2, 3) == old(self).entry(i2, 3),
            decreases 4 - i,
        {
            let ghost prev = *self;
            let nx = float_sub(float_mul(self.get(i, 0), c), float_mul(self.get(i, 2), s));
            let nz = float_add(float_mul(self.get(i, 0), s), float_mul(self.get(i, 2), c));
            self.set_entry(i, 0, nx);
            self.set_entry(i, 2, nz);
            proof {
                assert forall|i2: int, j: int|
                    0 <= i2 < 4 && 0 <= j < 4 && i2 != i as int implies #[trigger] self.entry(
                    i2,
                    j,
                ) == prev.entry(i2, j) by {
                    assert(slot_of(i2, j) == 4 * i2 + 3 - j);
                }
                assert(self.entry(i as int, 0) == nx);
                assert(self.entry(i as int, 2) == nz);
                assert(self.entry(i as int, 1) == prev.entry(i as int, 1));
                assert(self.entry(i as int, 3) == prev.entry(i as int, 3));
            }
            i += 1;
        }
    }

    /// Compose a rotation about the Z axis, given the sine and cosine of
    /// the angle: columns x and y are recombined as x*c + y*s and
    /// y*c - x*s.  Columns z and w do not change.
    pub fn rotate_z(&mut self, s: u32, c: u32)
        ensures
            forall|i: int|
                0 <= i < 4 ==> final(self).entry(i, 0) == add_bits(
                    mul_bits(old(self).entry(i, 0), c),
                    mul_bits(old(self).entry(i, 1), s),
                ),
            forall|i: int|
                0 <= i < 4 ==> final(self).entry(i, 1) == sub_bits(
                    mul_bits(old(self).entry(i, 1), c),
                    mul_bits(old(self).entry(i, 0), s),
                ),
            forall|i: int| 0 <= i < 4 ==> final(self).entry(i, 2) == old(self).entry(i, 2),
            forall|i: int| 0 <= i < 4 ==> final(self).entry(i, 3) == old(self).entry(i, 3),
    {
        let mut i: usize = 0;
        while i < 4
            invariant
                i <= 4,
                forall|i2: int, j: int|
                    i <= i2 < 4 && 0 <= j < 4 ==> #[trigger] self.entry(i2, j) == old(self).entry(
                        i2,
                        j,
                    ),
                forall|i2: int|
                    0 <= i2 < i ==> self.entry(i2, 0) == add_bits(
                        mul_bits(old(self).entry(i2, 0), c),
                        mul_bits(old(self).entry(i2, 1), s),
                    ),
                forall|i2: int|
                    0 <= i2 < i ==> self.entry(i2, 1) == sub_bits(
                        mul_bits(old(self).entry(i2, 1), c),
                        mul_bits(old(self).entry(i2, 0), s),
                    ),
                forall|i2: int| 0 <= i2 < i ==> self.entry(i2, 2) == old(self).entry(i2, 2),
                forall|i2: int| 0 <= i2 < i ==> self.entry(i2, 3) == old(self).entry(i2, 3),
            decreases 4 - i,
        {
            let ghost prev = *self;
            let nx = float_add(float_mul(self.get(i, 0), c), float_mul(self.get(i, 1), s));
            let ny = float_sub(float_mul(self.get(i, 1), c), float_mul(self.get(i, 0), s));
            self.set_entry(i, 0, nx);
            self.set_entry(i, 1, ny);
            proof {
                assert forall|i2: int, j: int|
                    0 <= i2 < 4 && 0 <= j < 4 && i2 != i as int implies #[trigger] self.entry(
                    i2,
                    j,
                ) == prev.entry(i2, j) by {
                    assert(slot_of(i2, j) == 4 * i2 + 3 - j);
                }
                assert(self.entry(i as int, 0) == nx);
                assert(self.entry(i as int, 1) == ny);
                assert(self.entry(i as int, 2) == prev.entry(i as int, 2));
                assert(self.entry(i as int, 3) == prev.entry(i as int, 3));
            }
            i += 1;
        }
    }
}

} // verus!
