//! Brightness of a PWM-driven LED channel.

use vstd::prelude::*;

verus! {

/// The duty that shows an 8-bit level on a channel whose full duty is `max`:
/// the level times one 256th of the full duty, rounded down.
pub open spec fn duty_of(max: u16, level: u8) -> int {
    (max / 256) * level
}

/// The duty to set on a channel whose full duty is `max` for an 8-bit level.
/// It never exceeds the full duty.
pub fn duty_for(max: u16, level: u8) -> (duty: u16)
    ensures
        duty == duty_of(max, level),
        duty <= max,
{
    let unit: u16 = max / 256;
    assert(unit * level <= unit * 256) by (nonlinear_arith)
        requires
            0 <= level < 256,
            0 <= unit,
    ;
    unit * (level as u16)
}

} // verus!
