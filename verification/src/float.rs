//! Single-precision numbers as they cross the platform boundary.
//!
//! Coordinates, pressures and angles arrive as 32-bit IEEE 754 numbers. The
//! library never computes with them; it carries their bit patterns and compares
//! their values. `Scalar` is such a bit pattern, and `units` is the number it
//! stands for, counted in units of the smallest positive number (2 to the power
//! of -149), so that every finite value is an integer.

pub mod laws;

use vstd::arithmetic::power2::*;
use vstd::prelude::*;

verus! {

/// A 32-bit IEEE 754 number, held as its bit pattern.
#[derive(Clone, Copy, Debug, PartialEq, Eq, Structural)]
pub struct Scalar {
    /// Sign in the top bit, then 8 bits of exponent and 23 bits of fraction.
    pub bits: u32,
}

/// The bit that holds the sign.
pub const SIGN_BIT: u32 = 0x8000_0000;

/// The magnitude of infinity; larger magnitudes are not numbers.
pub const INFINITE_MAGNITUDE: u32 = 0x7f80_0000;

/// One step of the exponent field.
pub const EXPONENT_STEP: u32 = 0x80_0000;

/// The bit pattern of 1.
pub const ONE: u32 = 0x3f80_0000;

/// The number with the given bit pattern.
#[verifier::allow_in_spec]
pub fn scalar(bits: u32) -> Scalar
    returns
        (Scalar { bits }),
{
    Scalar { bits }
}

/// What a magnitude (a bit pattern without its sign) is worth, in units of the
/// smallest positive number. Infinity gets a worth above that of every finite
/// magnitude.
pub open spec fn magnitude_units(magnitude: int) -> int {
    let exponent = magnitude / 0x80_0000;
    let fraction = magnitude % 0x80_0000;
    if exponent == 0 {
        fraction
    } else {
        (0x80_0000 + fraction) * pow2((exponent - 1) as nat)
    }
}

impl Scalar {
    /// The bit pattern without its sign.
    pub open spec fn magnitude(self) -> int {
        if self.bits >= SIGN_BIT {
            self.bits - SIGN_BIT
        } else {
            self.bits as int
        }
    }

    pub open spec fn is_nan(self) -> bool {
        self.magnitude() > INFINITE_MAGNITUDE
    }

    pub open spec fn is_finite(self) -> bool {
        self.magnitude() < INFINITE_MAGNITUDE
    }

    /// The value, in units of the smallest positive number; both zeros are 0.
    pub open spec fn units(self) -> int {
        if self.bits >= SIGN_BIT {
            -magnitude_units(self.magnitude())
        } else {
            magnitude_units(self.magnitude())
        }
    }

    /// `self < other` as numbers compare: never, where either is not a number.
    pub open spec fn below(self, other: Scalar) -> bool {
        !self.is_nan() && !other.is_nan() && self.units() < other.units()
    }

    /// `self <= other` as numbers compare: never, where either is not a number.
    pub open spec fn at_most(self, other: Scalar) -> bool {
        !self.is_nan() && !other.is_nan() && self.units() <= other.units()
    }

    /// `self == other` as numbers compare: the two zeros are equal, and what is
    /// not a number equals nothing.
    pub open spec fn same_value(self, other: Scalar) -> bool {
        !self.is_nan() && !other.is_nan() && self.units() == other.units()
    }

    /// The same number without its sign.
    pub open spec fn magnitude_of(self) -> Scalar {
        Scalar { bits: self.magnitude() as u32 }
    }

    /// The number kept between 0 and 1; what is not a number stays as it is.
    pub open spec fn within_unit(self) -> Scalar {
        if self.below(Scalar { bits: 0 }) {
            Scalar { bits: 0 }
        } else if (Scalar { bits: ONE }).below(self) {
            Scalar { bits: ONE }
        } else {
            self
        }
    }

    /// The larger of this number and 1; 1 where this is not a number.
    pub open spec fn at_least_one(self) -> Scalar {
        if (Scalar { bits: ONE }).below(self) {
            self
        } else {
            Scalar { bits: ONE }
        }
    }

    /// The same number with the sign turned.
    pub open spec fn negated(self) -> Scalar {
        if self.bits >= SIGN_BIT {
            Scalar { bits: (self.bits - SIGN_BIT) as u32 }
        } else {
            Scalar { bits: (self.bits + SIGN_BIT) as u32 }
        }
    }
}

/// A larger magnitude is worth strictly more.
proof fn lemma_magnitude_monotone(low: int, high: int)
    requires
        0 <= low < high,
    ensures
        0 <= magnitude_units(low) < magnitude_units(high),
{
    let e1 = low / 0x80_0000;
    let f1 = low % 0x80_0000;
    let e2 = high / 0x80_0000;
    let f2 = high % 0x80_0000;
    assert(e1 <= e2);
    if e2 == 0 {
    } else {
        let top = pow2((e2 - 1) as nat) as int;
        lemma_pow2_pos((e2 - 1) as nat);
        assert((0x80_0000 + f2) * top >= 0x80_0000 + f2) by (nonlinear_arith)
            requires
                top >= 1,
                f2 >= 0,
        ;
        if e1 == 0 {
        } else {
            let bottom = pow2((e1 - 1) as nat) as int;
            lemma_pow2_pos((e1 - 1) as nat);
            assert((0x80_0000 + f1) * bottom >= 0) by (nonlinear_arith)
                requires
                    bottom >= 1,
                    f1 >= 0,
            ;
            if e1 == e2 {
                assert((0x80_0000 + f1) * top < (0x80_0000 + f2) * top) by (nonlinear_arith)
                    requires
                        top >= 1,
                        f1 < f2,
                ;
            } else {
                lemma_pow2_adds((e1 - 1) as nat, (e2 - e1) as nat);
                let ratio = pow2((e2 - e1) as nat) as int;
                lemma_pow2_unfold((e2 - e1) as nat);
                lemma_pow2_pos((e2 - e1 - 1) as nat);
                assert(top == bottom * ratio);
                assert((0x80_0000 + f1) * bottom < (0x80_0000 + f2) * top) by (nonlinear_arith)
                    requires
                        top == bottom * ratio,
                        ratio >= 2,
                        bottom >= 1,
                        0 <= f1 < 0x80_0000,
                        f2 >= 0,
                ;
            }
        }
    }
}

/// The value orders as the signed magnitude does.
proof fn lemma_units_order(a: Scalar, b: Scalar)
    ensures
        a.units() < b.units() <==> signed_magnitude(a) < signed_magnitude(b),
        a.units() == b.units() <==> signed_magnitude(a) == signed_magnitude(b),
{
    let m = a.magnitude();
    let n = b.magnitude();
    if m < n {
        lemma_magnitude_monotone(m, n);
    }
    if n < m {
        lemma_magnitude_monotone(n, m);
    }
    if 0 < m {
        lemma_magnitude_monotone(0, m);
    }
    if 0 < n {
        lemma_magnitude_monotone(0, n);
    }
}

/// A number kept between 0 and 1 is there.
pub proof fn lemma_unit_range(number: Scalar)
    requires
        !number.is_nan(),
    ensures
        0 <= number.within_unit().units() <= scalar(ONE).units(),
        0 < scalar(ONE).units(),
{
    lemma_units_order(scalar(0), scalar(ONE));
}

spec fn signed_magnitude(a: Scalar) -> int {
    if a.bits >= SIGN_BIT {
        -a.magnitude()
    } else {
        a.magnitude()
    }
}

impl Scalar {
    fn signed(self) -> (key: i64)
        ensures
            key == signed_magnitude(self),
    {
        if self.bits >= SIGN_BIT {
            -((self.bits - SIGN_BIT) as i64)
        } else {
            self.bits as i64
        }
    }

    /// Whether this is no number at all.
    pub fn nan(self) -> (yes: bool)
        ensures
            yes == self.is_nan(),
    {
        let magnitude: u32 = if self.bits >= SIGN_BIT {
            self.bits - SIGN_BIT
        } else {
            self.bits
        };
        magnitude > INFINITE_MAGNITUDE
    }

    /// Whether this is a number, and not an infinite one.
    pub fn finite(self) -> (yes: bool)
        ensures
            yes == self.is_finite(),
    {
        let magnitude: u32 = if self.bits >= SIGN_BIT {
            self.bits - SIGN_BIT
        } else {
            self.bits
        };
        magnitude < INFINITE_MAGNITUDE
    }

    /// `self < other`.
    pub fn less(self, other: Scalar) -> (yes: bool)
        ensures
            yes == self.below(other),
    {
        proof {
            lemma_units_order(self, other);
        }
        !self.nan() && !other.nan() && self.signed() < other.signed()
    }

    /// `self <= other`.
    pub fn less_or_equal(self, other: Scalar) -> (yes: bool)
        ensures
            yes == self.at_most(other),
    {
        proof {
            lemma_units_order(self, other);
        }
        !self.nan() && !other.nan() && self.signed() <= other.signed()
    }

    /// `self == other` as numbers compare.
    pub fn equal(self, other: Scalar) -> (yes: bool)
        ensures
            yes == self.same_value(other),
    {
        proof {
            lemma_units_order(self, other);
        }
        !self.nan() && !other.nan() && self.signed() == other.signed()
    }

    /// `-self`.
    pub fn negate(self) -> (flipped: Scalar)
        ensures
            flipped == self.negated(),
            flipped.units() == -self.units(),
            flipped.is_nan() == self.is_nan(),
            flipped.is_finite() == self.is_finite(),
    {
        if self.bits >= SIGN_BIT {
            Scalar { bits: self.bits - SIGN_BIT }
        } else {
            Scalar { bits: self.bits + SIGN_BIT }
        }
    }

    /// The number without its sign.
    pub fn abs(self) -> (size: Scalar)
        ensures
            size == self.magnitude_of(),
            size.units() == (if self.units() < 0 { -self.units() } else { self.units() }),
            size.is_nan() == self.is_nan(),
    {
        proof {
            if 0 < self.magnitude() {
                lemma_magnitude_monotone(0, self.magnitude());
            }
        }
        if self.bits >= SIGN_BIT {
            Scalar { bits: self.bits - SIGN_BIT }
        } else {
            self
        }
    }

    /// The number kept between 0 and 1.
    pub fn clamp_unit(self) -> (kept: Scalar)
        ensures
            kept == self.within_unit(),
            !self.is_nan() ==> 0 <= kept.units() <= scalar(ONE).units(),
    {
        proof {
            if !self.is_nan() {
                lemma_unit_range(self);
            }
        }
        if self.less(scalar(0)) {
            scalar(0)
        } else if scalar(ONE).less(self) {
            scalar(ONE)
        } else {
            self
        }
    }

    /// The larger of this number and 1.
    pub fn max_one(self) -> (larger: Scalar)
        ensures
            larger == self.at_least_one(),
            larger.units() >= scalar(ONE).units(),
    {
        if scalar(ONE).less(self) {
            self
        } else {
            scalar(ONE)
        }
    }

    /// A whole number that a `Scalar` holds exactly.
    pub fn from_int(value: i32) -> (scalar: Scalar)
        requires
            -0x100_0000 < value < 0x100_0000,
        ensures
            scalar.is_finite(),
            scalar.units() == value * pow2(149),
            scalar.bits == 0 <==> value == 0,
    {
        if value == 0 {
            return Scalar { bits: 0 };
        }
        let size: u32 = if value < 0 {
            (-value) as u32
        } else {
            value as u32
        };
        let mut mantissa: u32 = size;
        let mut exponent: u32 = 150;
        proof {
            lemma2_to64();
        }
        while mantissa < EXPONENT_STEP
            invariant
                0 < mantissa < 2 * EXPONENT_STEP,
                126 <= exponent <= 150,
                mantissa as int >= pow2((150 - exponent) as nat),
                mantissa * pow2((exponent - 1) as nat) == size * pow2(149),
            decreases 2 * EXPONENT_STEP - mantissa,
        {
            proof {
                lemma2_to64();
                lemma_pow2_unfold((exponent - 1) as nat);
                lemma_pow2_unfold((151 - exponent) as nat);
                let half = pow2((exponent - 2) as nat) as int;
                assert(mantissa * (2 * half) == (2 * mantissa) * half) by (nonlinear_arith);
                if exponent == 126 {
                    assert(pow2(24) == 0x100_0000);
                }
            }
            mantissa = mantissa * 2;
            exponent = exponent - 1;
        }
        let magnitude: u32 = exponent * EXPONENT_STEP + (mantissa - EXPONENT_STEP);
        proof {
            assert(magnitude as int / 0x80_0000 == exponent);
            assert(magnitude as int % 0x80_0000 == mantissa - 0x80_0000);
            assert(magnitude_units(magnitude as int) == size * pow2(149));
            assert(-(size * pow2(149)) == (-size) * pow2(149)) by (nonlinear_arith);
        }
        if value < 0 {
            Scalar { bits: SIGN_BIT + magnitude }
        } else {
            Scalar { bits: magnitude }
        }
    }
}

} // verus!
