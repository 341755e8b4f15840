//! A light that runs back and forth along a short strip and fades from one
//! colour at its place to another colour far from it.

use vstd::prelude::*;

verus! {

/// The number of lights on the strip.
pub const STRIP: usize = 8;

/// The colour at the running light's place.
pub const NEAR: (u8, u8, u8) = (0xff, 0x05, 0x00);

/// The colour that the strip fades to away from the running light.
pub const FAR: (u8, u8, u8) = (0x00, 0x24, 0xff);

/// One channel of the mix at `distance` lights from the running light: the
/// near colour's share shrinks with the distance, the far colour's share grows
/// with it, and each share is rounded down.
pub open spec fn mixed(near: u8, far: u8, distance: int) -> int {
    near * (STRIP - distance) / (STRIP as int) + far * distance / (STRIP as int)
}

/// The distance between two places on the strip.
pub open spec fn apart(a: int, b: int) -> int {
    if a < b {
        b - a
    } else {
        a - b
    }
}

/// The colour of light `i` when the running light is at `position`.
pub open spec fn glow_at(position: int, i: int) -> (u8, u8, u8) {
    let d = apart(position, i);
    (mixed(NEAR.0, FAR.0, d) as u8, mixed(NEAR.1, FAR.1, d) as u8, mixed(NEAR.2, FAR.2, d) as u8)
}

/// Where the running light stands after one step, and whether it then runs
/// upwards. It turns round at both ends of the strip.
pub open spec fn stepped(position: int, up: bool) -> (int, bool) {
    if up {
        if position == STRIP - 1 {
            (position - 1, false)
        } else {
            (position + 1, true)
        }
    } else {
        if position == 0 {
            (position + 1, true)
        } else {
            (position - 1, false)
        }
    }
}

/// One channel of the mix of the two colours at a distance on the strip.
fn mix(near: u8, far: u8, distance: u32) -> (c: u32)
    requires
        distance <= STRIP,
    ensures
        c == mixed(near, far, distance as int),
        c <= 255,
{
    assert(near * (STRIP - distance) + far * distance <= 255 * STRIP) by (nonlinear_arith)
        requires
            0 <= near <= 255,
            0 <= far <= 255,
            0 <= distance <= STRIP,
    ;
    assert(0 <= near * (STRIP - distance) && 0 <= far * distance) by (nonlinear_arith)
        requires
            0 <= near,
            0 <= far,
            0 <= distance <= STRIP,
    ;
    let a: u32 = near as u32 * (STRIP as u32 - distance);
    let b: u32 = far as u32 * distance;
    a / STRIP as u32 + b / STRIP as u32
}

/// The colours of the whole strip when the running light is at `position`.
pub fn strip_colors(position: usize) -> (colors: [(u8, u8, u8); 8])
    requires
        position < STRIP,
    ensures
        forall|i: int| 0 <= i < STRIP ==> colors[i] == glow_at(position as int, i),
{
    let mut colors: [(u8, u8, u8); 8] = [(0, 0, 0);8];
    let mut i: usize = 0;
    while i < STRIP
        invariant
            0 <= i <= STRIP,
            position < STRIP,
            forall|k: int| 0 <= k < i ==> colors[k] == glow_at(position as int, k),
        decreases STRIP - i,
    {
        let distance: u32 = if position < i {
            (i - position) as u32
        } else {
            (position - i) as u32
        };
        let c: (u8, u8, u8) = (
            mix(NEAR.0, FAR.0, distance) as u8,
            mix(NEAR.1, FAR.1, distance) as u8,
            mix(NEAR.2, FAR.2, distance) as u8,
        );
        colors[i] = c;
        i += 1;
    }
    colors
}

/// Moves the running light on by one place, turning it round at the ends.
pub fn step(position: usize, up: bool) -> (next: (usize, bool))
    requires
        position < STRIP,
    ensures
        (next.0 as int, next.1) == stepped(position as int, up),
        next.0 < STRIP,
        apart(next.0 as int, position as int) == 1,
{
    if up {
        if position == STRIP - 1 {
            (position - 1, false)
        } else {
            (position + 1, true)
        }
    } else {
        if position == 0 {
            (position + 1, true)
        } else {
            (position - 1, false)
        }
    }
}

} // verus!
