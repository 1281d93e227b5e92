//! The numbers that the scene is described with.
use vstd::prelude::*;

verus! {

/// A single-precision number, carried as its IEEE 754 bit pattern.
///
/// The library moves such numbers about and never computes with them.
#[derive(Clone, Copy, Debug, PartialEq, Eq, Structural)]
pub struct Scalar {
    pub bits: u32,
}

/// A constant of the scene, given exactly as `num / den`.
#[derive(Clone, Copy, Debug, PartialEq, Eq, Structural)]
pub struct Ratio {
    pub num: i32,
    pub den: u32,
}

/// Three numbers, as a point in space or a direction has them.
#[derive(Clone, Copy, Debug, PartialEq, Eq, Structural)]
pub struct Direction {
    pub x: Scalar,
    pub y: Scalar,
    pub z: Scalar,
}

impl Ratio {
    /// The number `num / den`.
    pub fn new(num: i32, den: u32) -> (ratio: Ratio)
        requires
            den > 0,
        ensures
            ratio == (Ratio { num, den }),
    {
        Ratio { num, den }
    }
}

} // verus!
