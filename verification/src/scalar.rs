//! Single-precision numbers, held by their bit pattern.
//!
//! The rules compare numbers, take magnitudes and pick bounds; they never add
//! or multiply. All of that is integer work on the pattern: a pattern's
//! *rank* is an integer that orders every number the way the numbers are
//! ordered, and a pattern that is not a number has no rank.
use vstd::prelude::*;

verus! {

/// The largest pattern, sign aside, that is a number: infinity.
pub const INFINITE_MAGNITUDE: u32 = 0x7f80_0000;

/// The sign bit.
pub const SIGN: u32 = 0x8000_0000;

/// A single-precision number, as its IEEE 754 bit pattern.
#[derive(Debug, Clone, Copy, PartialEq, Eq, Structural)]
pub struct Scalar {
    pub bits: u32,
}

/// `0`.
pub const ZERO: u32 = 0;

/// `-1`.
pub const MINUS_ONE: u32 = 0xbf80_0000;

/// `0.001`.
pub const MILLI: u32 = 0x3a83_126f;

/// `0.01`.
pub const CENTI: u32 = 0x3c23_d70a;

/// `0.1`.
pub const TENTH: u32 = 0x3dcc_cccd;

/// `0.2`.
pub const FIFTH: u32 = 0x3e4c_cccd;

/// `0.25`.
pub const QUARTER: u32 = 0x3e80_0000;

/// `0.5`.
pub const HALF: u32 = 0x3f00_0000;

/// `0.999`.
pub const NEARLY_ONE: u32 = 0x3f7f_be77;

/// `1`.
pub const ONE: u32 = 0x3f80_0000;

/// `4`.
pub const FOUR: u32 = 0x4080_0000;

/// `10`.
pub const TEN: u32 = 0x4120_0000;

/// `14`.
pub const FOURTEEN: u32 = 0x4160_0000;

/// `-20`.
pub const MINUS_TWENTY: u32 = 0xc1a0_0000;

/// `20`.
pub const TWENTY: u32 = 0x41a0_0000;

/// `25`.
pub const TWENTY_FIVE: u32 = 0x41c8_0000;

/// `32`.
pub const THIRTY_TWO: u32 = 0x4200_0000;

/// `40`.
pub const FORTY: u32 = 0x4220_0000;

/// `56`.
pub const FIFTY_SIX: u32 = 0x4260_0000;

/// `64`.
pub const SIXTY_FOUR: u32 = 0x4280_0000;

/// `90`.
pub const NINETY: u32 = 0x42b4_0000;

/// `100`.
pub const HUNDRED: u32 = 0x42c8_0000;

/// `255`.
pub const BYTE_MAX: u32 = 0x437f_0000;

/// `72000`, two hundred turns in degrees.
pub const TWO_HUNDRED_TURNS: u32 = 0x478c_a000;

/// The gap between `1` and the next number.
pub const EPSILON: u32 = 0x3400_0000;

/// The square of [`EPSILON`].
pub const EPSILON_SQUARED: u32 = 0x2880_0000;

/// The number with a given pattern.
#[verifier::allow_in_spec]
pub fn num(bits: u32) -> Scalar
    returns
        (Scalar { bits }),
{
    Scalar { bits }
}

impl Scalar {
    /// The pattern without its sign.
    pub open spec fn magnitude(self) -> int {
        if self.bits >= SIGN { self.bits - SIGN } else { self.bits as int }
    }

    pub open spec fn is_negative(self) -> bool {
        self.bits >= SIGN
    }

    /// Whether the pattern is a number at all.
    pub open spec fn numeric(self) -> bool {
        self.magnitude() <= INFINITE_MAGNITUDE
    }

    /// Where the number stands among all numbers. Both zeros stand at `0`.
    pub open spec fn rank(self) -> int {
        if self.is_negative() { -self.magnitude() } else { self.magnitude() }
    }

    pub open spec fn less(self, other: Scalar) -> bool {
        self.numeric() && other.numeric() && self.rank() < other.rank()
    }

    pub open spec fn at_most(self, other: Scalar) -> bool {
        self.numeric() && other.numeric() && self.rank() <= other.rank()
    }

    /// Equality of numbers: the zeros are equal, what is no number equals
    /// nothing.
    pub open spec fn same(self, other: Scalar) -> bool {
        self.numeric() && other.numeric() && self.rank() == other.rank()
    }

    pub open spec fn negated(self) -> Scalar {
        Scalar { bits: (if self.is_negative() { self.bits - SIGN } else { self.bits + SIGN }) as u32 }
    }

    pub open spec fn absolute(self) -> Scalar {
        Scalar { bits: self.magnitude() as u32 }
    }

    pub open spec fn clamped(self, min: Scalar, max: Scalar) -> Scalar {
        if self.less(min) {
            min
        } else if max.less(self) {
            max
        } else {
            self
        }
    }

    pub open spec fn smaller(self, other: Scalar) -> Scalar {
        if !self.numeric() || other.less(self) { other } else { self }
    }

    pub open spec fn larger(self, other: Scalar) -> Scalar {
        if !self.numeric() || self.less(other) { other } else { self }
    }

    /// The magnitude of the pattern, as the code computes it.
    fn mag(self) -> (m: u32)
        ensures
            m == self.magnitude(),
    {
        if self.bits >= SIGN {
            self.bits - SIGN
        } else {
            self.bits
        }
    }

    /// Whether this is a number.
    pub fn is_numeric(self) -> (r: bool)
        ensures
            r == self.numeric(),
    {
        self.mag() <= INFINITE_MAGNITUDE
    }

    fn order(self) -> (r: i64)
        ensures
            r == self.rank(),
    {
        let m: i64 = self.mag() as i64;
        if self.bits >= SIGN {
            -m
        } else {
            m
        }
    }

    /// `self < other`.
    pub fn lt(self, other: Scalar) -> (r: bool)
        ensures
            r == self.less(other),
    {
        self.is_numeric() && other.is_numeric() && self.order() < other.order()
    }

    /// `self <= other`.
    pub fn le(self, other: Scalar) -> (r: bool)
        ensures
            r == self.at_most(other),
    {
        self.is_numeric() && other.is_numeric() && self.order() <= other.order()
    }

    /// `self == other`, as numbers.
    pub fn equals(self, other: Scalar) -> (r: bool)
        ensures
            r == self.same(other),
    {
        self.is_numeric() && other.is_numeric() && self.order() == other.order()
    }

    /// `-self`.
    pub fn neg(self) -> (r: Scalar)
        ensures
            r == self.negated(),
    {
        if self.bits >= SIGN {
            Scalar { bits: self.bits - SIGN }
        } else {
            Scalar { bits: self.bits + SIGN }
        }
    }

    /// The number without its sign.
    pub fn abs(self) -> (r: Scalar)
        ensures
            r == self.absolute(),
    {
        Scalar { bits: self.mag() }
    }

    /// The nearest number between two bounds.
    pub fn clamp(self, min: Scalar, max: Scalar) -> (r: Scalar)
        requires
            min.at_most(max),
        ensures
            r == self.clamped(min, max),
    {
        if self.lt(min) {
            min
        } else if max.lt(self) {
            max
        } else {
            self
        }
    }

    /// The smaller of two numbers; the other one where one is no number.
    pub fn min(self, other: Scalar) -> (r: Scalar)
        ensures
            r == self.smaller(other),
    {
        if !self.is_numeric() || other.lt(self) {
            other
        } else {
            self
        }
    }

    /// The larger of two numbers; the other one where one is no number.
    pub fn max(self, other: Scalar) -> (r: Scalar)
        ensures
            r == self.larger(other),
    {
        if !self.is_numeric() || self.lt(other) {
            other
        } else {
            self
        }
    }
}

/// Three numbers: a point, a direction, or pitch, yaw and roll.
#[derive(Debug, Clone, Copy, PartialEq, Eq, Structural)]
pub struct Vector {
    pub x: Scalar,
    pub y: Scalar,
    pub z: Scalar,
}

/// The vector of three zeros.
#[verifier::allow_in_spec]
pub fn origin() -> Vector
    returns
        (Vector { x: num(ZERO), y: num(ZERO), z: num(ZERO) }),
{
    Vector { x: num(ZERO), y: num(ZERO), z: num(ZERO) }
}

impl Vector {
    /// Component by component equality of numbers.
    pub open spec fn same(self, other: Vector) -> bool {
        self.x.same(other.x) && self.y.same(other.y) && self.z.same(other.z)
    }

    pub open spec fn negated(self) -> Vector {
        Vector { x: self.x.negated(), y: self.y.negated(), z: self.z.negated() }
    }

    pub fn equals(self, other: Vector) -> (r: bool)
        ensures
            r == self.same(other),
    {
        self.x.equals(other.x) && self.y.equals(other.y) && self.z.equals(other.z)
    }

    pub fn neg(self) -> (r: Vector)
        ensures
            r == self.negated(),
    {
        Vector { x: self.x.neg(), y: self.y.neg(), z: self.z.neg() }
    }
}

/// Clamping keeps a number between the bounds.
pub proof fn clamp_stays_in_bounds(value: Scalar, min: Scalar, max: Scalar)
    requires
        value.numeric(),
        min.at_most(max),
    ensures
        min.at_most(value.clamped(min, max)),
        value.clamped(min, max).at_most(max),
{
}

/// Clamping twice between the same bounds is clamping once.
pub proof fn clamp_is_idempotent(value: Scalar, min: Scalar, max: Scalar)
    requires
        min.at_most(max),
    ensures
        value.clamped(min, max).clamped(min, max) == value.clamped(min, max),
{
}

/// Negating twice gives the number back, bit for bit.
pub proof fn negation_is_an_involution(value: Scalar)
    ensures
        value.negated().negated() == value,
{
}

} // verus!
