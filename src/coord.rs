use vstd::prelude::*;

verus! {

/// The sign bit of a double.
pub const SIGN_MASK: u64 = 0x8000_0000_0000_0000;

/// Every bit of a double but its sign.
pub const MAGNITUDE_MASK: u64 = 0x7fff_ffff_ffff_ffff;

/// The eleven exponent bits of a double.
pub const EXPONENT_MASK: u64 = 0x7ff0_0000_0000_0000;

/// The fifty-two fraction bits of a double.
pub const FRACTION_MASK: u64 = 0x000f_ffff_ffff_ffff;

/// One coordinate of a position, or one bound of a domain: an IEEE-754
/// double, held as its bit pattern.
#[derive(Clone, Copy, Debug)]
pub struct Coord {
    pub bits: u64,
}

impl Coord {
    /// Whether the value is a NaN: all exponent bits set, fraction not zero.
    pub open spec fn spec_is_nan(self) -> bool {
        (self.bits & EXPONENT_MASK) == EXPONENT_MASK && (self.bits & FRACTION_MASK) != 0
    }

    /// Whether the sign bit is set.
    pub open spec fn spec_is_sign_negative(self) -> bool {
        (self.bits & SIGN_MASK) != 0
    }

    /// The position of a non-NaN value in the order of the doubles: the bits
    /// below the sign, negated where the sign is set. Both zeros rank 0, and
    /// the infinities rank at the two ends.
    pub open spec fn rank(self) -> int {
        let magnitude = (self.bits & MAGNITUDE_MASK) as int;
        if self.spec_is_sign_negative() {
            -magnitude
        } else {
            magnitude
        }
    }

    /// IEEE-754 `<`: false where either side is a NaN, else the order of ranks.
    pub open spec fn spec_lt(self, other: Coord) -> bool {
        !self.spec_is_nan() && !other.spec_is_nan() && self.rank() < other.rank()
    }

    /// IEEE-754 `==`: false where either side is a NaN, else equal ranks, so
    /// that the two zeros are equal.
    pub open spec fn spec_equals(self, other: Coord) -> bool {
        !self.spec_is_nan() && !other.spec_is_nan() && self.rank() == other.rank()
    }

    pub fn from_bits(bits: u64) -> (r: Coord)
        ensures
            r.bits == bits,
    {
        Coord { bits }
    }

    pub fn to_bits(self) -> (r: u64)
        ensures
            r == self.bits,
    {
        self.bits
    }

    pub fn is_nan(self) -> (r: bool)
        ensures
            r == self.spec_is_nan(),
    {
        (self.bits & EXPONENT_MASK) == EXPONENT_MASK && (self.bits & FRACTION_MASK) != 0
    }

    /// Whether `self < other` as doubles.
    pub fn lt(self, other: Coord) -> (r: bool)
        ensures
            r == self.spec_lt(other),
    {
        if self.is_nan() || other.is_nan() {
            return false;
        }
        let a = self.bits & MAGNITUDE_MASK;
        let b = other.bits & MAGNITUDE_MASK;
        let a_negative = (self.bits & SIGN_MASK) != 0;
        let b_negative = (other.bits & SIGN_MASK) != 0;
        if a_negative && b_negative {
            b < a
        } else if a_negative {
            a != 0 || b != 0
        } else if b_negative {
            false
        } else {
            a < b
        }
    }
}

} // verus!
