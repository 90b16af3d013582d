use crate::vectors::scalar::Scalar;
use crate::vectors::scalar::ONE_BITS;
use vstd::prelude::*;

verus! {

/// Color struct represents an RGB (Red, Green, Blue) trio. Each color is somewhere
/// between 0 - 1.
#[derive(Clone, Copy, Debug)]
pub struct Color {
    pub red: Scalar,
    pub green: Scalar,
    pub blue: Scalar,
}

impl Color {
    /// Black: no light in any channel.
    pub open spec fn black() -> Color {
        Color { red: Scalar { bits: 0 }, green: Scalar { bits: 0 }, blue: Scalar { bits: 0 } }
    }

    /// White: full intensity in every channel.
    pub open spec fn spec_white() -> Color {
        Color {
            red: Scalar { bits: ONE_BITS },
            green: Scalar { bits: ONE_BITS },
            blue: Scalar { bits: ONE_BITS },
        }
    }

    pub fn new(red: Scalar, green: Scalar, blue: Scalar) -> (c: Color)
        ensures
            c == (Color { red, green, blue }),
    {
        Color { red, green, blue }
    }

    /// Generate a color with all elements equal to 0
    pub fn zeroes() -> (c: Color)
        ensures
            c == Color::black(),
    {
        Color::new(Scalar::zero(), Scalar::zero(), Scalar::zero())
    }

    /// Generate a color with all elements equal to 1
    #[verifier::when_used_as_spec(spec_white)]
    pub fn white() -> (c: Color)
        ensures
            c == Color::spec_white(),
    {
        Color::new(Scalar::one(), Scalar::one(), Scalar::one())
    }
}

} // verus!
