//! The colour rule of a breathing animation. The envelope of the breath is
//! computed elsewhere; here its effect on one light is turned into a colour.

use crate::hsv::{normalize_hue, wrap_hue, HSV};
use vstd::prelude::*;

verus! {

/// The saturation of every breathing colour.
pub const BREATH_SATURATION: u8 = 0xa0;

/// The value of a breathing colour at rest.
pub const BREATH_VALUE: u8 = 128;

/// The brightness `lift` above the value at rest. Brightness is an 8-bit
/// magnitude: a sum beyond 255 wraps round.
pub open spec fn lifted(lift: u8) -> u8 {
    if BREATH_VALUE + lift > u8::MAX {
        (BREATH_VALUE + lift - 0x100) as u8
    } else {
        (BREATH_VALUE + lift) as u8
    }
}

/// The colour of one light of a breathing animation: the base hue moved by
/// `shift` steps round the wheel, and the value at rest raised by `lift`.
pub fn breath_color(hue: i16, shift: i16, lift: u8) -> (c: HSV)
    ensures
        c.h == wrap_hue(hue + shift),
        c.s == BREATH_SATURATION,
        c.v == lifted(lift),
        c.wf(),
{
    HSV {
        h: normalize_hue(hue as i32 + shift as i32),
        s: BREATH_SATURATION,
        v: BREATH_VALUE.wrapping_add(lift),
    }
}

} // verus!
