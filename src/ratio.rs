use vstd::prelude::*;

verus! {

/// The largest numerator or denominator of a scale that a transform is planned for (2^76).
/// Every scale of a `LinFreqs` lies within it.
pub const MAX_RATIO_PART: u128 = 0x1000_0000_0000_0000_0000;

/// An exact non-negative fraction `num / den`.
///
/// Scales are held as fractions of samples, and frequencies as fractions of
/// millihertz, so that the scale set is exact: no rounding enters between the
/// configured bounds and the values each row is analysed at.
#[derive(Debug, Clone, Copy, PartialEq, Eq, Structural)]
pub struct Ratio {
    pub num: u128,
    pub den: u128,
}

impl Ratio {
    /// `self` and `other` stand for the same rational value (both denominators non-zero).
    pub open spec fn same_value(self, other: Ratio) -> bool {
        self.num * other.den == other.num * self.den
    }

    /// `self` is strictly below `other` as rational values (both denominators positive).
    pub open spec fn less_than(self, other: Ratio) -> bool {
        self.num * other.den < other.num * self.den
    }

    /// `self` equals the whole number `v`.
    pub open spec fn is_int(self, v: int) -> bool {
        self.num == v * self.den
    }
}

} // verus!
