//! Colors.
use vstd::prelude::*;
use crate::scalar::Scalar;
use crate::vec::Vec3;

verus! {

/// The bit patterns of the red and the green of the sky: a half and seven
/// tenths. Its blue is one.
pub const SKY_RED_BITS: u64 = 0x3fe0_0000_0000_0000;

pub const SKY_GREEN_BITS: u64 = 0x3fe6_6666_6666_6666;

/// A color: red, green and blue, each meant to lie between zero and one.
pub type Color = Vec3;

/// Full light on every channel.
pub fn white() -> (r: Color)
    ensures
        r == Vec3::ones(),
{
    Vec3::ones()
}

/// No light.
pub fn black() -> (r: Color)
    ensures
        r == Vec3::zeros(),
{
    Vec3::zeros()
}

/// The blue of the sky. The background runs from white, where a ray points
/// straight down, to this color, where it points straight up.
pub fn sky() -> (r: Color)
    ensures
        r == (Vec3 {
            x: Scalar { bits: SKY_RED_BITS },
            y: Scalar { bits: SKY_GREEN_BITS },
            z: Scalar::one(),
        }),
{
    Vec3::new(Scalar::from_bits(SKY_RED_BITS), Scalar::from_bits(SKY_GREEN_BITS), Scalar::one())
}

} // verus!
