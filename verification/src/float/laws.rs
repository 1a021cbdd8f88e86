//! What holds of every number.

use crate::float;
use crate::float::{scalar, Scalar};
use vstd::arithmetic::power2::*;
use vstd::prelude::*;

verus! {

/// Bit patterns count up through the numbers. Zero is worth nothing, and the next larger
/// magnitude is worth one unit more as long as the exponent is 0 or 1, and twice as much
/// more with every further step of the exponent.
pub proof fn law_magnitudes_step_up(bits: u32)
    requires
        bits < 0x7f80_0000,
    ensures
        scalar(0).units() == 0,
        scalar(0x8000_0000).units() == 0,
        scalar((bits + 1) as u32).units() - scalar(bits).units() == pow2(
            (if bits < 0x80_0000 {
                0
            } else {
                (bits as int) / 0x80_0000 - 1
            }) as nat,
        ),
        scalar((bits + 0x8000_0000) as u32).units() == -scalar(bits).units(),
{
    lemma2_to64();
    let low = bits as int;
    let high = low + 1;
    let e1 = low / 0x80_0000;
    let e2 = high / 0x80_0000;
    if e1 == e2 {
        assert(high % 0x80_0000 == low % 0x80_0000 + 1);
        if e1 > 0 {
            let p = pow2((e1 - 1) as nat) as int;
            let f = low % 0x80_0000;
            assert((0x80_0000 + f + 1) * p - (0x80_0000 + f) * p == p) by (nonlinear_arith);
        }
    } else {
        assert(e2 == e1 + 1 && high % 0x80_0000 == 0 && low % 0x80_0000 == 0x7f_ffff);
        if e1 > 0 {
            lemma_pow2_unfold((e2 - 1) as nat);
            let p = pow2((e1 - 1) as nat) as int;
            assert(0x80_0000 * (2 * p) - (0x80_0000 + 0x7f_ffff) * p == p) by (nonlinear_arith);
        }
    }
}

/// One step of the exponent doubles a number.
pub proof fn law_exponent_doubles(bits: u32)
    requires
        0x80_0000 <= bits < 0x7f00_0000,
    ensures
        scalar((bits + 0x80_0000) as u32).units() == 2 * scalar(bits).units(),
{
    let m = bits as int;
    let e = m / 0x80_0000;
    let f = m % 0x80_0000;
    assert((m + 0x80_0000) / 0x80_0000 == e + 1);
    assert((m + 0x80_0000) % 0x80_0000 == f);
    lemma_pow2_unfold(e as nat);
    let p = pow2((e - 1) as nat) as int;
    assert((0x80_0000 + f) * (2 * p) == 2 * ((0x80_0000 + f) * p)) by (nonlinear_arith);
}

/// The pattern of 1 is worth 1, a power of two of units, and a number with a few low bits
/// is worth what they say.
pub proof fn law_small_numbers()
    ensures
        0 < scalar(0x3f80_0000).units(),
        scalar(0x3f80_0000).units() == pow2(149),
        scalar(0x4080_0000).units() == 4 * scalar(0x3f80_0000).units(),
        scalar(0x4100_0000).units() == 8 * scalar(0x3f80_0000).units(),
        scalar(0x41a0_0000).units() == 20 * scalar(0x3f80_0000).units(),
        scalar(0x41c0_0000).units() == 24 * scalar(0x3f80_0000).units(),
        scalar(0xc7c3_5000).units() == -100_000 * scalar(0x3f80_0000).units(),
        !scalar(0x3f80_0000).is_nan(),
        !scalar(0x4080_0000).is_nan(),
        !scalar(0x4100_0000).is_nan(),
        !scalar(0x41a0_0000).is_nan(),
        !scalar(0x41c0_0000).is_nan(),
        !scalar(0xc7c3_5000).is_nan(),
{
    float::lemma_unit_range(scalar(0));
    lemma2_to64();
    lemma_pow2_adds(23, 126);
    lemma_pow2_adds(2, 126);
    lemma_pow2_adds(3, 126);
    lemma_pow2_adds(4, 126);
    lemma_pow2_adds(16, 126);
    assert(0x4080_0000int / 0x80_0000 == 129 && 0x4080_0000int % 0x80_0000 == 0);
    assert(0x4100_0000int / 0x80_0000 == 130 && 0x4100_0000int % 0x80_0000 == 0);
    assert(0x41a0_0000int / 0x80_0000 == 131 && 0x41a0_0000int % 0x80_0000 == 0x20_0000);
    assert(0x41c0_0000int / 0x80_0000 == 131 && 0x41c0_0000int % 0x80_0000 == 0x40_0000);
    assert(0x47c3_5000int / 0x80_0000 == 143 && 0x47c3_5000int % 0x80_0000 == 0x43_5000);
}

/// Numbers compare by what they are worth. Everything above infinity is no number, and
/// compares as nothing.
pub proof fn law_numbers_compare(a: Scalar, b: Scalar)
    ensures
        a.is_nan() <==> 0x7f80_0000 < a.bits < 0x8000_0000 || 0xff80_0000 < a.bits,
        a.is_finite() <==> a.bits < 0x7f80_0000 || 0x8000_0000 <= a.bits < 0xff80_0000,
        a.is_nan() || b.is_nan() ==> !a.below(b) && !a.at_most(b) && !a.same_value(b),
        !a.is_nan() && !b.is_nan() ==> {
            &&& a.below(b) <==> a.units() < b.units()
            &&& a.at_most(b) <==> a.units() <= b.units()
            &&& a.same_value(b) <==> a.units() == b.units()
            &&& a.at_most(b) <==> !b.below(a)
        },
{
}

/// A number of larger pattern is larger among the positive ones, and smaller among the
/// negative ones.
pub proof fn law_patterns_are_ordered(a: u32, b: u32)
    requires
        a < b < 0x8000_0000,
    ensures
        scalar(a).units() < scalar(b).units(),
        scalar((b + 0x8000_0000) as u32).units() < scalar((a + 0x8000_0000) as u32).units(),
{
    float::lemma_units_order(scalar(a), scalar(b));
    float::lemma_units_order(scalar((b + 0x8000_0000) as u32), scalar((a + 0x8000_0000) as u32));
}

/// Dropping the sign and turning it change nothing but the sign.
pub proof fn law_signs(a: Scalar)
    ensures
        a.negated().units() == -a.units(),
        a.negated().negated() == a,
        a.negated() != a,
        a.negated().is_nan() == a.is_nan(),
        a.magnitude_of().units() == if a.units() < 0 {
            -a.units()
        } else {
            a.units()
        },
        a.magnitude_of().is_nan() == a.is_nan(),
        a.magnitude_of().bits < 0x8000_0000,
        a.negated().magnitude_of() == a.magnitude_of(),
{
    if 0 < a.magnitude() {
        float::lemma_magnitude_monotone(0, a.magnitude());
    }
}

/// A number kept between 0 and 1 is the number itself where it is there, and the nearer
/// end otherwise. What is no number stays.
pub proof fn law_kept_in_the_unit(a: Scalar)
    ensures
        a.is_nan() ==> a.within_unit() == a,
        !a.is_nan() && 0 <= a.units() <= scalar(0x3f80_0000).units() ==> a.within_unit() == a,
        !a.is_nan() && a.units() < 0 ==> a.within_unit() == scalar(0),
        !a.is_nan() && scalar(0x3f80_0000).units() < a.units() ==> a.within_unit() == scalar(
            0x3f80_0000,
        ),
{
    float::lemma_unit_range(scalar(0));
}

/// A number of at least 1 is itself or 1, whichever is larger, and 1 where it is no number.
pub proof fn law_at_least_one(a: Scalar)
    ensures
        !a.is_nan() && scalar(0x3f80_0000).units() < a.units() ==> a.at_least_one() == a,
        a.is_nan() || a.units() <= scalar(0x3f80_0000).units() ==> a.at_least_one() == scalar(
            0x3f80_0000,
        ),
{
}

} // verus!
