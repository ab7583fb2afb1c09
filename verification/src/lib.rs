//! Vector and matrix math for a fixed-function GPU transformation pipeline.
//!
//! Every scalar in this crate is an IEEE-754 single-precision value carried as
//! its raw 32-bit pattern (`u32`), exactly as the consuming rendering hardware
//! sees it.  Matrices and vectors are stored in the hardware's native register
//! format: a fixed 4x4 (or 4-slot) block whose rows hold their logical
//! elements right-aligned in reverse (WZYX) order.

use vstd::prelude::*;

pub mod fvec;
pub mod inverse;
pub mod laws;
pub mod matrix;
pub mod ops;
pub mod projection;
pub mod scalar;
pub mod transform;

pub use fvec::{FVec, FVec3, FVec4};
pub use matrix::{Matrix, Matrix3, Matrix4};
pub use projection::{AspectRatio, ClipPlanes, CoordinateOrientation, ScreenOrientation, StereoDisplacement};

verus! {

/// A 4-vector of `u8`s, packed into one 32-bit word in the hardware's
/// order: x in the lowest byte, then y, z and w.
#[derive(Clone, Copy, Debug, PartialEq, Eq, Structural)]
pub struct IVec {
    bits: u32,
}

impl IVec {
    /// The packed 32-bit word, as the hardware consumes it.
    pub closed spec fn raw(self) -> u32 {
        self.bits
    }

    /// Pack four bytes, x lowest.
    pub fn new(x: u8, y: u8, z: u8, w: u8) -> (r: IVec)
        ensures
            r.raw() == (x as u32) | ((y as u32) << 8) | ((z as u32) << 16) | ((w as u32) << 24),
    {
        IVec {
            bits: (x as u32) | ((y as u32) << 8) | ((z as u32) << 16) | ((w as u32) << 24),
        }
    }

    /// Wrap a packed 32-bit word.
    pub fn from_raw(bits: u32) -> (r: IVec)
        ensures
            r.raw() == bits,
    {
        IVec { bits }
    }

    /// Hand out the packed 32-bit word.
    pub fn into_raw(self) -> (r: u32)
        ensures
            r == self.raw(),
    {
        self.bits
    }

    /// The x byte (lowest).
    pub fn x(self) -> (r: u8)
        ensures
            r == (self.raw() & 0xFF) as u8,
    {
        (self.bits & 0xFF) as u8
    }

    /// The y byte.
    pub fn y(self) -> (r: u8)
        ensures
            r == ((self.raw() >> 8) & 0xFF) as u8,
    {
        ((self.bits >> 8) & 0xFF) as u8
    }

    /// The z byte.
    pub fn z(self) -> (r: u8)
        ensures
            r == ((self.raw() >> 16) & 0xFF) as u8,
    {
        ((self.bits >> 16) & 0xFF) as u8
    }

    /// The w byte (highest).
    pub fn w(self) -> (r: u8)
        ensures
            r == ((self.raw() >> 24) & 0xFF) as u8,
    {
        ((self.bits >> 24) & 0xFF) as u8
    }
}

/// A quaternion, stored exactly as a 4-component vector: a 4-slot block of
/// IEEE-754 bit patterns in WZYX order.  Semantically a rotation, not a
/// general vector; this crate gives it storage and construction only.
#[derive(Clone, Copy, Debug)]
pub struct FQuat {
    cells: [u32; 4],
}

impl FQuat {
    /// The raw 4-slot block, in the order the hardware consumes it.
    pub closed spec fn raw(self) -> Seq<u32> {
        self.cells@
    }

    /// A quaternion from its components; component j lives in slot 3 - j.
    pub fn new(x: u32, y: u32, z: u32, w: u32) -> (r: FQuat)
        ensures
            r.raw() == seq![w, z, y, x],
    {
        let r = FQuat { cells: [w, z, y, x] };
        proof {
            assert(r.raw() =~= seq![w, z, y, x]);
        }
        r
    }

    /// Wrap a raw 4-slot block.
    pub fn from_raw(cells: [u32; 4]) -> (r: FQuat)
        ensures
            r.raw() == cells@,
    {
        FQuat { cells }
    }

    /// Hand out the raw 4-slot block.
    pub fn into_raw(self) -> (r: [u32; 4])
        ensures
            r@ == self.raw(),
    {
        self.cells
    }
}

} // verus!
