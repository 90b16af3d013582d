use vstd::prelude::*;

verus! {

/// The bit that carries the sign of a binary64 number.
pub const SIGN_BIT: u64 = 0x8000_0000_0000_0000;

/// The bit pattern of positive infinity: every larger magnitude is a NaN.
pub const INFINITY_BITS: u64 = 0x7FF0_0000_0000_0000;

/// The bit pattern of 1.
pub const ONE_BITS: u64 = 0x3FF0_0000_0000_0000;

/// The number of bit patterns that one binary exponent spans: 2^52.
pub const FRACTION_RANGE: u64 = 0x10_0000_0000_0000;

/// A binary64 number, held by its IEEE-754 bit pattern.
///
/// The sign is the top bit and the remaining 63 bits, read as an integer,
/// grow with the absolute value of the number. Comparisons therefore need no
/// floating-point unit: they are comparisons of signed integers, with the
/// two zeros equal and every NaN unordered.
#[derive(Clone, Copy, Debug)]
pub struct Scalar {
    pub bits: u64,
}

impl Scalar {
    /// The bit pattern with the sign cleared.
    pub open spec fn magnitude(self) -> int {
        if self.bits >= SIGN_BIT {
            self.bits - SIGN_BIT
        } else {
            self.bits as int
        }
    }

    /// Whether the sign bit is set.
    pub open spec fn negative(self) -> bool {
        self.bits >= SIGN_BIT
    }

    /// Whether the pattern encodes no number at all.
    pub open spec fn nan(self) -> bool {
        self.magnitude() > INFINITY_BITS
    }

    /// The exponent field. For a number that is neither an infinity nor a
    /// NaN it is below 2047, and the absolute value of the number is
    /// `significand × 2^(scale - 1075)`.
    pub open spec fn exponent(self) -> int {
        self.magnitude() / (FRACTION_RANGE as int)
    }

    /// The exponent that scales the significand: the exponent field, but 1
    /// for the numbers so small that the field is 0.
    pub open spec fn scale(self) -> int {
        if self.exponent() == 0 {
            1
        } else {
            self.exponent()
        }
    }

    /// The fraction field, with the leading 1 that the format leaves out of
    /// every number whose exponent field is not 0.
    pub open spec fn significand(self) -> int {
        if self.exponent() == 0 {
            self.magnitude() % (FRACTION_RANGE as int)
        } else {
            FRACTION_RANGE + self.magnitude() % (FRACTION_RANGE as int)
        }
    }

    /// The pattern that differs from this one in the sign bit only.
    pub open spec fn opposite(self) -> Scalar {
        if self.bits >= SIGN_BIT {
            Scalar { bits: (self.bits - SIGN_BIT) as u64 }
        } else {
            Scalar { bits: (self.bits + SIGN_BIT) as u64 }
        }
    }

    /// The position of the number on the number line: two numbers compare as
    /// their ranks do. Both zeros have rank 0.
    pub open spec fn rank(self) -> int {
        if self.negative() {
            -self.magnitude()
        } else {
            self.magnitude()
        }
    }

    /// `self < other` as IEEE-754 defines it: false whenever a NaN is involved.
    pub open spec fn below(self, other: Scalar) -> bool {
        !self.nan() && !other.nan() && self.rank() < other.rank()
    }

    /// `lower < self < upper`.
    pub open spec fn strictly_between(self, lower: Scalar, upper: Scalar) -> bool {
        lower.below(self) && self.below(upper)
    }

    /// The number with the given bit pattern.
    pub fn new(bits: u64) -> (s: Scalar)
        ensures
            s.bits == bits,
    {
        Scalar { bits }
    }

    /// Positive zero.
    pub fn zero() -> (s: Scalar)
        ensures
            s.bits == 0,
    {
        Scalar { bits: 0 }
    }

    /// The number 1.
    pub fn one() -> (s: Scalar)
        ensures
            s.bits == ONE_BITS,
    {
        Scalar { bits: ONE_BITS }
    }

    /// Positive infinity.
    pub fn infinity() -> (s: Scalar)
        ensures
            s.bits == INFINITY_BITS,
    {
        Scalar { bits: INFINITY_BITS }
    }

    /// Whether the pattern is a NaN.
    #[verifier::when_used_as_spec(nan)]
    pub fn is_nan(self) -> (r: bool)
        ensures
            r == self.nan(),
    {
        if self.bits >= SIGN_BIT {
            self.bits - SIGN_BIT > INFINITY_BITS
        } else {
            self.bits > INFINITY_BITS
        }
    }

    /// `self < other`.
    #[verifier::when_used_as_spec(below)]
    pub fn lt(self, other: Scalar) -> (r: bool)
        ensures
            r == self.below(other),
    {
        if self.is_nan() || other.is_nan() {
            return false;
        }
        let self_negative = self.bits >= SIGN_BIT;
        let other_negative = other.bits >= SIGN_BIT;
        if self_negative {
            if other_negative {
                self.bits > other.bits
            } else {
                self.bits > SIGN_BIT || other.bits > 0
            }
        } else {
            !other_negative && self.bits < other.bits
        }
    }

    /// `self > other`.
    pub fn gt(self, other: Scalar) -> (r: bool)
        ensures
            r == other.below(self),
    {
        other.lt(self)
    }

    /// The number with its sign flipped: its mirror image around zero. A NaN
    /// stays a NaN.
    pub fn neg(self) -> (s: Scalar)
        ensures
            s == self.opposite(),
            s.rank() == -self.rank(),
            s.nan() == self.nan(),
    {
        if self.bits >= SIGN_BIT {
            Scalar { bits: self.bits - SIGN_BIT }
        } else {
            Scalar { bits: self.bits + SIGN_BIT }
        }
    }
}

} // verus!
