//! Camera and display geometry descriptors, and the projection-matrix
//! builders that encode them into 4x4 transforms.
//!
//! The perspective builder takes the tangent of half the vertical field of
//! view as a scalar: evaluating the tangent itself is outside this
//! library's arithmetic.

use vstd::prelude::*;

use crate::matrix::{slot_of, Matrix4};
use crate::ops::mul_window;
use crate::scalar::{
    add_bits, div_bits, float_add, float_div, float_mul, float_neg, float_sub, mul_bits, neg_bits,
    sub_bits, F32_ONE, F32_TWO, F32_ZERO,
};

verus! {

broadcast use crate::matrix::lemma_matrix_raw_len;

/// The handedness of the world coordinate system, which selects the
/// cross-product sign convention of the view-matrix builder and the sign of
/// the depth axis in projections.
#[derive(Clone, Copy, Debug, PartialEq, Eq, Structural)]
pub enum CoordinateOrientation {
    /// A left-handed world: the camera looks down the positive depth axis.
    LeftHanded,
    /// A right-handed world: the camera looks down the negative depth axis.
    RightHanded,
}

impl CoordinateOrientation {
    /// Whether this is the left-handed convention.
    pub fn is_left_handed(self) -> (r: bool)
        ensures
            r == (self == CoordinateOrientation::LeftHanded),
    {
        match self {
            CoordinateOrientation::LeftHanded => true,
            CoordinateOrientation::RightHanded => false,
        }
    }
}

/// The rotation applied to match the physical mounting of the target
/// display relative to the logical render surface.
#[derive(Clone, Copy, Debug, PartialEq, Eq, Structural)]
pub enum ScreenOrientation {
    /// The render surface is mounted rotated a quarter turn, as the target
    /// hardware's displays are: projections fold the quarter-turn rotation
    /// into the matrix.
    Rotated,
    /// The render surface is mounted upright.
    Upright,
}

/// The four side clip planes of a projection volume, as scalars.
#[derive(Clone, Copy, Debug)]
pub struct ClipPlanes {
    /// The left plane's coordinate.
    pub left: u32,
    /// The right plane's coordinate.
    pub right: u32,
    /// The bottom plane's coordinate.
    pub bottom: u32,
    /// The top plane's coordinate.
    pub top: u32,
}

/// A width-over-height ratio consumed by the perspective builder.
#[derive(Clone, Copy, Debug)]
pub struct AspectRatio {
    ratio: u32,
}

impl AspectRatio {
    /// The ratio scalar.
    pub closed spec fn spec_ratio(self) -> u32 {
        self.ratio
    }

    /// Wrap a precomputed width-over-height ratio.
    pub fn from_ratio(ratio: u32) -> (r: AspectRatio)
        ensures
            r.spec_ratio() == ratio,
    {
        AspectRatio { ratio }
    }

    /// The ratio of an explicit width and height, as IEEE-754 computes it.
    pub fn from_width_height(width: u32, height: u32) -> (r: AspectRatio)
        ensures
            r.spec_ratio() == div_bits(width, height),
    {
        AspectRatio { ratio: float_div(width, height) }
    }

    /// The ratio scalar.
    pub fn ratio(self) -> (r: u32)
        ensures
            r == self.spec_ratio(),
    {
        self.ratio
    }
}

/// The per-eye horizontal frustum shear of a stereoscopic projection: the
/// eye's signed horizontal displacement from the center, and the depth at
/// which the two eyes' images converge.
#[derive(Clone, Copy, Debug)]
pub struct StereoDisplacement {
    /// The eye's signed horizontal displacement.
    pub displacement: u32,
    /// The depth of the plane that appears at screen level.
    pub screen_depth: u32,
}

impl StereoDisplacement {
    /// The left-eye and right-eye displacements of a stereoscopic pair:
    /// each eye sits half the interaxial distance from the center, the left
    /// eye on the negative side.
    pub fn new_pair(interaxial_distance: u32, screen_depth: u32) -> (r: (
        StereoDisplacement,
        StereoDisplacement,
    ))
        ensures
            r.0.displacement == neg_bits(div_bits(interaxial_distance, F32_TWO)),
            r.0.screen_depth == screen_depth,
            r.1.displacement == div_bits(interaxial_distance, F32_TWO),
            r.1.screen_depth == screen_depth,
    {
        let half = float_div(interaxial_distance, F32_TWO);
        (
            StereoDisplacement { displacement: float_neg(half), screen_depth },
            StereoDisplacement { displacement: half, screen_depth },
        )
    }
}

/// The window of the orthographic projection of the box bounded by the clip
/// planes `cp` and the near and far depths: each axis is scaled and shifted
/// onto [-1, 1].  In the right-handed convention the depth axis is negated
/// (the camera looks down negative depth); the left-handed convention keeps
/// its sign.
pub open spec fn ortho_window(cp: ClipPlanes, near: u32, far: u32, lh: bool) -> Seq<Seq<u32>> {
    seq![
        seq![
            div_bits(F32_TWO, sub_bits(cp.right, cp.left)),
            F32_ZERO,
            F32_ZERO,
            neg_bits(div_bits(add_bits(cp.right, cp.left), sub_bits(cp.right, cp.left))),
        ],
        seq![
            F32_ZERO,
            div_bits(F32_TWO, sub_bits(cp.top, cp.bottom)),
            F32_ZERO,
            neg_bits(div_bits(add_bits(cp.top, cp.bottom), sub_bits(cp.top, cp.bottom))),
        ],
        seq![
            F32_ZERO,
            F32_ZERO,
            if lh {
                div_bits(F32_TWO, sub_bits(far, near))
            } else {
                neg_bits(div_bits(F32_TWO, sub_bits(far, near)))
            },
            neg_bits(div_bits(add_bits(far, near), sub_bits(far, near))),
        ],
        seq![F32_ZERO, F32_ZERO, F32_ZERO, F32_ONE],
    ]
}

/// The window of the perspective projection with the given tangent of half
/// the vertical field of view, aspect ratio and depth range.  In the
/// right-handed convention the homogeneous row holds -1 and the depth terms
/// are negated; the left-handed convention flips those signs.
pub open spec fn persp_window(t: u32, aspect: u32, near: u32, far: u32, lh: bool) -> Seq<
    Seq<u32>,
> {
    seq![
        seq![div_bits(div_bits(F32_ONE, t), aspect), F32_ZERO, F32_ZERO, F32_ZERO],
        seq![F32_ZERO, div_bits(F32_ONE, t), F32_ZERO, F32_ZERO],
        seq![
            F32_ZERO,
            F32_ZERO,
            if lh {
                div_bits(add_bits(far, near), sub_bits(far, near))
            } else {
                neg_bits(div_bits(add_bits(far, near), sub_bits(far, near)))
            },
            neg_bits(div_bits(mul_bits(F32_TWO, mul_bits(far, near)), sub_bits(far, near))),
        ],
        seq![F32_ZERO, F32_ZERO, if lh { F32_ONE } else { neg_bits(F32_ONE) }, F32_ZERO],
    ]
}

impl Matrix4 {
    /// The orthographic projection of the box bounded by the clip planes
    /// and the near and far depths onto the canonical [-1, 1] clip volume.
    /// The handedness flips the sign of the depth axis.
    #[verifier::rlimit(30)]
    pub fn orthographic(
        clip_planes: ClipPlanes,
        near: u32,
        far: u32,
        coordinates: CoordinateOrientation,
    ) -> (r: Matrix4)
        ensures
            r@ == ortho_window(
                clip_planes,
                near,
                far,
                coordinates == CoordinateOrientation::LeftHanded,
            ),
    {
        let lh = coordinates.is_left_handed();
        let w = float_sub(clip_planes.right, clip_planes.left);
        let h = float_sub(clip_planes.top, clip_planes.bottom);
        let d = float_sub(far, near);
        let mut m = Matrix4::zero();
        m.set_entry(0, 0, float_div(F32_TWO, w));
        m.set_entry(0, 3, float_neg(float_div(float_add(clip_planes.right, clip_planes.left), w)));
        m.set_entry(1, 1, float_div(F32_TWO, h));
        m.set_entry(1, 3, float_neg(float_div(float_add(clip_planes.top, clip_planes.bottom), h)));
        if lh {
            m.set_entry(2, 2, float_div(F32_TWO, d));
        } else {
            m.set_entry(2, 2, float_neg(float_div(F32_TWO, d)));
        }
        m.set_entry(2, 3, float_neg(float_div(float_add(far, near), d)));
        m.set_entry(3, 3, F32_ONE);
        proof {
            assert(m@ =~~= ortho_window(
                clip_planes,
                near,
                far,
                coordinates == CoordinateOrientation::LeftHanded,
            ));
        }
        m
    }

    /// The perspective projection with the given tangent of half the
    /// vertical field of view (computed outside this library's arithmetic),
    /// aspect ratio and near and far depths.  The handedness selects the
    /// sign of the depth axis and of the homogeneous row.
    #[verifier::rlimit(30)]
    pub fn perspective(
        tan_half_fovy: u32,
        aspect_ratio: AspectRatio,
        near: u32,
        far: u32,
        coordinates: CoordinateOrientation,
    ) -> (r: Matrix4)
        ensures
            r@ == persp_window(
                tan_half_fovy,
                aspect_ratio.spec_ratio(),
                near,
                far,
                coordinates == CoordinateOrientation::LeftHanded,
            ),
    {
        let lh = coordinates.is_left_handed();
        let inv_t = float_div(F32_ONE, tan_half_fovy);
        let d = float_sub(far, near);
        let mut m = Matrix4::zero();
        m.set_entry(0, 0, float_div(inv_t, aspect_ratio.ratio()));
        m.set_entry(1, 1, inv_t);
        if lh {
            m.set_entry(2, 2, float_div(float_add(far, near), d));
            m.set_entry(3, 2, F32_ONE);
        } else {
            m.set_entry(2, 2, float_neg(float_div(float_add(far, near), d)));
            m.set_entry(3, 2, float_neg(F32_ONE));
        }
        m.set_entry(2, 3, float_neg(float_div(float_mul(F32_TWO, float_mul(far, near)), d)));
        proof {
            assert(m@ =~~= persp_window(
                tan_half_fovy,
                aspect_ratio.spec_ratio(),
                near,
                far,
                coordinates == CoordinateOrientation::LeftHanded,
            ));
        }
        m
    }

    /// Apply one eye's stereoscopic displacement to a perspective matrix: a
    /// horizontal frustum shear of displacement over convergence depth is
    /// added to the depth coefficient of the horizontal row, so that the
    /// plane at the convergence depth appears at screen level for both
    /// eyes.  Every other element is unchanged.
    pub fn apply_stereo(&mut self, stereo: StereoDisplacement)
        ensures
            final(self).entry(0, 2) == add_bits(
                old(self).entry(0, 2),
                div_bits(stereo.displacement, stereo.screen_depth),
            ),
            forall|i: int, j: int|
                0 <= i < 4 && 0 <= j < 4 && !(i == 0 && j == 2) ==> final(self).entry(i, j) == old(
                    self,
                ).entry(i, j),
    {
        let shear = float_div(stereo.displacement, stereo.screen_depth);
        let v = float_add(self.get(0, 2), shear);
        self.set_entry(0, 2, v);
        proof {
            assert forall|i: int, j: int|
                0 <= i < 4 && 0 <= j < 4 && !(i == 0 && j == 2) implies self.entry(i, j) == old(
                self,
            ).entry(i, j) by {
                assert(slot_of(i, j) == 4 * i + 3 - j);
            }
        }
    }

    /// Fold the physical mounting of the target display into a finished
    /// projection: a rotated mounting multiplies a quarter-turn rotation of
    /// the render surface on the left of the matrix, so the rotation acts
    /// last; an upright mounting leaves the matrix as it is.  The rotation
    /// sends x to y and y to -x.
    pub fn apply_screen_rotation(&mut self, orientation: ScreenOrientation)
        ensures
            orientation == ScreenOrientation::Upright ==> *final(self) == *old(self),
            orientation == ScreenOrientation::Rotated ==> final(self)@ == mul_window(
                quarter_turn_window(),
                old(self)@,
                4,
            ),
    {
        match orientation {
            ScreenOrientation::Upright => (),
            ScreenOrientation::Rotated => {
                let mut cells: [u32; 16] = [F32_ZERO; 16];
                cells[2] = crate::scalar::F32_NEG_ONE;
                cells[7] = F32_ONE;
                cells[9] = F32_ONE;
                cells[12] = F32_ONE;
                let rot = Matrix4::from_raw(cells);
                proof {
                    assert(rot@ =~~= quarter_turn_window());
                }
                let cur = *self;
                *self = rot.mul(&cur);
            },
        }
    }
}

/// The quarter-turn rotation of the render surface: x goes to y and y to
/// -x, depth and the homogeneous coordinate stay.
pub open spec fn quarter_turn_window() -> Seq<Seq<u32>> {
    seq![
        seq![F32_ZERO, crate::scalar::F32_NEG_ONE, F32_ZERO, F32_ZERO],
        seq![F32_ONE, F32_ZERO, F32_ZERO, F32_ZERO],
        seq![F32_ZERO, F32_ZERO, F32_ONE, F32_ZERO],
        seq![F32_ZERO, F32_ZERO, F32_ZERO, F32_ONE],
    ]
}

} // verus!
