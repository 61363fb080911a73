use vstd::prelude::*;

verus! {

/// The bit that carries the sign of a binary32 number.
pub const SIGN_BIT: u32 = 0x8000_0000;

/// The bit pattern of positive infinity: every larger magnitude is not a number.
pub const INFINITY_BITS: u32 = 0x7f80_0000;

/// An IEEE 754 binary32 number, held by its bit pattern.
///
/// The engine never computes with such a number itself: sums, products and
/// roots come from an [`crate::arithmetic::Arithmetic`] that the caller
/// supplies. What the engine decides on its own is how two numbers compare,
/// and that is a matter of their bit patterns alone.
#[derive(Clone, Copy, Debug)]
pub struct Scalar {
    pub bits: u32,
}

impl Scalar {
    /// Whether the sign bit is set.
    pub open spec fn negative(self) -> bool {
        self.bits >= SIGN_BIT
    }

    /// The bit pattern without its sign bit.
    pub open spec fn magnitude(self) -> int {
        if self.bits >= SIGN_BIT {
            self.bits - SIGN_BIT
        } else {
            self.bits as int
        }
    }

    /// Whether the pattern encodes no number at all.
    pub open spec fn nan(self) -> bool {
        self.magnitude() > INFINITY_BITS
    }

    /// The place of a number among all binary32 numbers: numbers compare as
    /// their ranks do, and the two zeros share rank 0.
    pub open spec fn rank(self) -> int {
        if self.negative() {
            -self.magnitude()
        } else {
            self.magnitude()
        }
    }

    /// `self < other` as IEEE 754 defines it.
    pub open spec fn below(self, other: Scalar) -> bool {
        !self.nan() && !other.nan() && self.rank() < other.rank()
    }

    /// `self <= other` as IEEE 754 defines it.
    pub open spec fn at_most(self, other: Scalar) -> bool {
        !self.nan() && !other.nan() && self.rank() <= other.rank()
    }

    /// `self == other` as IEEE 754 defines it: no number equals a NaN, and the
    /// two zeros are equal.
    pub open spec fn same(self, other: Scalar) -> bool {
        !self.nan() && !other.nan() && self.rank() == other.rank()
    }

    /// `self > 0`.
    pub open spec fn positive(self) -> bool {
        !self.nan() && self.rank() > 0
    }

    /// The number with the sign bit flipped.
    pub open spec fn negated(self) -> Scalar {
        if self.bits >= SIGN_BIT {
            Scalar { bits: (self.bits - SIGN_BIT) as u32 }
        } else {
            Scalar { bits: (self.bits + SIGN_BIT) as u32 }
        }
    }

    /// The number with the sign bit cleared.
    pub open spec fn absolute(self) -> Scalar {
        if self.bits >= SIGN_BIT {
            Scalar { bits: (self.bits - SIGN_BIT) as u32 }
        } else {
            self
        }
    }

    pub fn from_bits(bits: u32) -> (s: Scalar)
        ensures
            s.bits == bits,
    {
        Scalar { bits }
    }

    pub fn to_bits(self) -> (bits: u32)
        ensures
            bits == self.bits,
    {
        self.bits
    }

    /// Positive zero.
    pub fn zero() -> (s: Scalar)
        ensures
            s.bits == 0,
    {
        Scalar { bits: 0 }
    }

    /// The number one.
    pub fn one() -> (s: Scalar)
        ensures
            s.bits == 0x3f80_0000,
    {
        Scalar { bits: 0x3f80_0000 }
    }

    /// The number two.
    pub fn two() -> (s: Scalar)
        ensures
            s.bits == 0x4000_0000,
    {
        Scalar { bits: 0x4000_0000 }
    }

    /// One half.
    pub fn half() -> (s: Scalar)
        ensures
            s.bits == 0x3f00_0000,
    {
        Scalar { bits: 0x3f00_0000 }
    }

    /// Minus one.
    pub fn minus_one() -> (s: Scalar)
        ensures
            s.bits == 0xbf80_0000,
    {
        Scalar { bits: 0xbf80_0000 }
    }

    fn exec_magnitude(self) -> (m: u32)
        ensures
            m == self.magnitude(),
    {
        if self.bits >= SIGN_BIT {
            self.bits - SIGN_BIT
        } else {
            self.bits
        }
    }

    fn exec_rank(self) -> (r: i64)
        ensures
            r == self.rank(),
    {
        let m: i64 = self.exec_magnitude() as i64;
        if self.bits >= SIGN_BIT {
            -m
        } else {
            m
        }
    }

    pub fn is_nan(self) -> (b: bool)
        ensures
            b == self.nan(),
    {
        self.exec_magnitude() > INFINITY_BITS
    }

    /// `-self`: the same magnitude with the other sign, also for zeros,
    /// infinities and NaNs.
    pub fn neg(self) -> (s: Scalar)
        ensures
            s == self.negated(),
            s.magnitude() == self.magnitude(),
            s.negative() != self.negative(),
    {
        if self.bits >= SIGN_BIT {
            Scalar { bits: self.bits - SIGN_BIT }
        } else {
            Scalar { bits: self.bits + SIGN_BIT }
        }
    }

    /// `|self|`: the same magnitude with the sign bit cleared.
    pub fn abs(self) -> (s: Scalar)
        ensures
            s == self.absolute(),
            s.magnitude() == self.magnitude(),
            !s.negative(),
    {
        Scalar { bits: self.exec_magnitude() }
    }

    /// `self < other`.
    pub fn lt(self, other: Scalar) -> (b: bool)
        ensures
            b == self.below(other),
    {
        !self.is_nan() && !other.is_nan() && self.exec_rank() < other.exec_rank()
    }

    /// `self <= other`.
    pub fn le(self, other: Scalar) -> (b: bool)
        ensures
            b == self.at_most(other),
    {
        !self.is_nan() && !other.is_nan() && self.exec_rank() <= other.exec_rank()
    }

    /// `self > other`.
    pub fn gt(self, other: Scalar) -> (b: bool)
        ensures
            b == other.below(self),
    {
        other.lt(self)
    }

    /// `self >= other`.
    pub fn ge(self, other: Scalar) -> (b: bool)
        ensures
            b == other.at_most(self),
    {
        other.le(self)
    }

    /// `self == other`.
    pub fn equals(self, other: Scalar) -> (b: bool)
        ensures
            b == self.same(other),
    {
        !self.is_nan() && !other.is_nan() && self.exec_rank() == other.exec_rank()
    }

    /// `self == 0`, for either zero.
    pub fn is_zero(self) -> (b: bool)
        ensures
            b == (self.magnitude() == 0),
            b == self.same(Scalar { bits: 0 }),
    {
        self.exec_magnitude() == 0
    }

    /// `self > 0`.
    pub fn is_positive(self) -> (b: bool)
        ensures
            b == self.positive(),
            b == (Scalar { bits: 0 }).below(self),
    {
        Scalar::zero().lt(self)
    }

    /// `self < 0`.
    pub fn is_negative(self) -> (b: bool)
        ensures
            b == (!self.nan() && self.rank() < 0),
            b == self.below(Scalar { bits: 0 }),
    {
        self.lt(Scalar::zero())
    }
}

impl core::ops::Neg for Scalar {
    type Output = Scalar;

    fn neg(self) -> (s: Scalar) {
        if self.bits >= SIGN_BIT {
            Scalar { bits: self.bits - SIGN_BIT }
        } else {
            Scalar { bits: self.bits + SIGN_BIT }
        }
    }
}

impl vstd::std_specs::ops::NegSpecImpl for Scalar {
    open spec fn obeys_neg_spec() -> bool {
        true
    }

    open spec fn neg_req(self) -> bool {
        true
    }

    open spec fn neg_spec(self) -> Scalar {
        self.negated()
    }
}

impl PartialEq for Scalar {
    fn eq(&self, other: &Scalar) -> (b: bool) {
        self.equals(*other)
    }
}

impl vstd::std_specs::cmp::PartialEqSpecImpl for Scalar {
    open spec fn obeys_eq_spec() -> bool {
        true
    }

    open spec fn eq_spec(&self, other: &Scalar) -> bool {
        self.same(*other)
    }
}

} // verus!
