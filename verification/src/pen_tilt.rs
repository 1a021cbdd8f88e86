//! The orientation of a pen, from what a system reports of it to degrees. Screen X
//! points right, screen Y down.

use crate::float::{scalar, Scalar};
use crate::input::Tilt;
use vstd::arithmetic::power2::*;
use vstd::prelude::*;

verus! {

/// 90 as a bit pattern.
const NINETY: u32 = 0x42b4_0000;

/// Whether a number is within 90 of zero.
pub open spec fn is_degrees(value: Scalar) -> bool {
    value.is_finite() && -90 * pow2(149) <= value.units() <= 90 * pow2(149)
}

proof fn lemma_ninety()
    ensures
        scalar(NINETY).units() == 90 * pow2(149),
        !scalar(NINETY).is_nan(),
{
    let bits = scalar(NINETY).magnitude();
    assert(bits / 0x80_0000 == 133);
    assert(bits % 0x80_0000 == 0x34_0000);
    lemma_pow2_adds(132, 17);
    lemma2_to64();
    assert(0xb4_0000 * pow2(132) == 90 * (pow2(132) * 0x2_0000)) by (nonlinear_arith);
}

fn within_degrees(value: Scalar) -> (yes: bool)
    ensures
        yes == is_degrees(value),
{
    proof {
        lemma_ninety();
        assert(-90 * pow2(149) == -(90 * pow2(149)));
    }
    value.finite() && value.abs().less_or_equal(scalar(NINETY))
}

/// A tilt in degrees: the sample itself, where both axes are within 90 of the
/// perpendicular.
pub fn degrees(value: Tilt) -> (tilt: Option<Tilt>)
    ensures
        tilt == if is_degrees(value.x) && is_degrees(value.y) {
            Some(value)
        } else {
            None
        },
{
    if within_degrees(value.x) && within_degrees(value.y) {
        Some(value)
    } else {
        None
    }
}

/// The event subtype that carries a tablet point; other mouse events have no tilt.
pub const TABLET_POINT_SUBTYPE: i16 = 1;

/// The tilt of an AppKit event. `scaled` is the reported tilt with both axes multiplied
/// by 90; the view's Y axis points up, so it is turned.
pub fn appkit(subtype: i16, scaled: Tilt) -> (tilt: Option<Tilt>)
    ensures
        tilt == if subtype == TABLET_POINT_SUBTYPE && is_degrees(scaled.x) && is_degrees(
            scaled.y.negated(),
        ) {
            Some(Tilt { x: scaled.x, y: scaled.y.negated() })
        } else {
            None
        },
        subtype != 1 ==> tilt is None,
        subtype == 1 && is_degrees(scaled.x) && is_degrees(scaled.y) ==> (tilt matches Some(tilt)
            && tilt.x == scaled.x && tilt.y.units() == -scaled.y.units()),
{
    if subtype != TABLET_POINT_SUBTYPE {
        return None;
    }
    degrees(Tilt { x: scaled.x, y: scaled.y.negate() })
}

/// The bits of a pen mask that say that both tilt axes are valid.
pub const TILT_MASK: u32 = 12;

/// Whether a number is this many degrees.
pub open spec fn counts(value: Scalar, whole: int) -> bool {
    value.is_finite() && value.units() == whole * pow2(149) && (whole == 0 ==> value.bits == 0)
}

/// The tilt that Windows reports for a pen, in whole degrees, where the mask says that
/// both axes are valid.
pub fn windows(mask: u32, x: i32, y: i32) -> (tilt: Option<Tilt>)
    ensures
        tilt is Some <==> mask & TILT_MASK == TILT_MASK && -90 <= x <= 90 && -90 <= y <= 90,
        tilt matches Some(tilt) ==> counts(tilt.x, x as int) && counts(tilt.y, y as int),
        tilt is Some <==> mask & 12 == 12 && -90 <= x <= 90 && -90 <= y <= 90,
{
    if mask & TILT_MASK != TILT_MASK {
        return None;
    }
    if x < -90 || x > 90 || y < -90 || y > 90 {
        return None;
    }
    Some(Tilt { x: Scalar::from_int(x), y: Scalar::from_int(y) })
}

/// Whether the extra information of a mouse message says that a pen made it: the
/// signature of promoted input, without the bit that marks touch.
pub fn windows_is_pen_mouse(extra_info: u32) -> (pen: bool)
    ensures
        pen == (0xff51_5700 <= extra_info <= 0xff51_577f),
{
    assert((extra_info & 0xffff_ff80 == 0xff51_5700) == (0xff51_5700 <= extra_info && extra_info
        <= 0xff51_577f)) by (bit_vector);
    extra_info & 0xffff_ff80 == 0xff51_5700
}

/// The tilt of a mouse message: the pen's last sample where a pen made the message. A
/// mouse or a finger never inherits it.
pub fn windows_mouse(extra_info: u32, sample: Option<Tilt>) -> (tilt: Option<Tilt>)
    ensures
        tilt == if 0xff51_5700 <= extra_info <= 0xff51_577f {
            sample
        } else {
            None
        },
{
    if windows_is_pen_mouse(extra_info) {
        sample
    } else {
        None
    }
}

/// Angles are degrees from -90 to 90, both of them included, and a counted angle is the
/// number itself.
pub proof fn law_angles(value: Scalar, whole: int)
    ensures
        is_degrees(value) <==> value.is_finite() && -90 * scalar(0x3f80_0000).units()
            <= value.units() <= 90 * scalar(0x3f80_0000).units(),
        counts(value, whole) ==> value.units() == whole * scalar(0x3f80_0000).units()
            && value.is_finite(),
{
    crate::float::laws::law_small_numbers();
}

} // verus!
