//! Quadrature decoding of a rotary encoder's two channels.

use vstd::prelude::*;

verus! {

/// The way a knob was turned by one step.
#[derive(Clone, Copy, Debug, PartialEq, Eq, Structural)]
pub enum Direction {
    CW,
    CCW,
}

/// Where a sample of the two channels lies in the Gray-code cycle
/// `(0,0) -> (0,1) -> (1,1) -> (1,0)` that a clockwise turn runs through.
pub open spec fn phase(sample: (bool, bool)) -> int {
    if !sample.0 && !sample.1 {
        0
    } else if !sample.0 && sample.1 {
        1
    } else if sample.0 && sample.1 {
        2
    } else {
        3
    }
}

/// The pulse that a pair of successive samples stands for: one step forward in
/// the cycle is a clockwise pulse, one step back a counter-clockwise pulse, and
/// anything else (no change, or both channels changed at once) is no pulse.
pub open spec fn decode(last: (bool, bool), next: (bool, bool)) -> Option<Direction> {
    let step = (phase(next) - phase(last)) % 4;
    if step == 1 {
        Some(Direction::CW)
    } else if step == 3 {
        Some(Direction::CCW)
    } else {
        None
    }
}

/// A 16-bit setting moved `by` steps the way the knob was turned: up for a
/// clockwise pulse, down for a counter-clockwise one. A setting that is moved
/// past either end of the range comes in again at the other end.
pub open spec fn turned_i16(x: i16, dir: Direction, by: i16) -> i16 {
    let moved = match dir {
        Direction::CW => x + by,
        Direction::CCW => x - by,
    };
    if moved > i16::MAX {
        (moved - 0x1_0000) as i16
    } else if moved < i16::MIN {
        (moved + 0x1_0000) as i16
    } else {
        moved as i16
    }
}

/// An 8-bit setting moved `by` steps the way the knob was turned, wrapping
/// round at both ends like `turned_i16`.
pub open spec fn turned_u8(x: u8, dir: Direction, by: u8) -> u8 {
    let moved = match dir {
        Direction::CW => x + by,
        Direction::CCW => x - by,
    };
    if moved > u8::MAX {
        (moved - 0x100) as u8
    } else if moved < 0 {
        (moved + 0x100) as u8
    } else {
        moved as u8
    }
}

/// Moves a 16-bit setting `by` steps the way the knob was turned.
pub fn turn_i16(x: i16, dir: Direction, by: i16) -> (r: i16)
    ensures
        r == turned_i16(x, dir, by),
{
    match dir {
        Direction::CW => x.wrapping_add(by),
        Direction::CCW => x.wrapping_sub(by),
    }
}

/// Moves an 8-bit setting `by` steps the way the knob was turned.
pub fn turn_u8(x: u8, dir: Direction, by: u8) -> (r: u8)
    ensures
        r == turned_u8(x, dir, by),
{
    match dir {
        Direction::CW => x.wrapping_add(by),
        Direction::CCW => x.wrapping_sub(by),
    }
}

/// Decoder for one knob. It remembers the previous sample of the two channels.
pub struct Knob {
    last: (bool, bool),
}

impl Knob {
    /// The sample that the next one will be compared with.
    pub closed spec fn last(&self) -> (bool, bool) {
        self.last
    }

    /// A decoder that takes both channels to have been low.
    pub fn new() -> (knob: Self)
        ensures
            knob.last() == (false, false),
    {
        Knob { last: (false, false) }
    }

    /// Takes one sample of the two channels, remembers it, and says which pulse
    /// it makes together with the sample before it.
    pub fn poll(&mut self, a: bool, b: bool) -> (pulse: Option<Direction>)
        ensures
            pulse == decode(old(self).last(), (a, b)),
            final(self).last() == (a, b),
    {
        let next: (bool, bool) = (a, b);
        let last: (bool, bool) = self.last;
        self.last = next;
        match (last, next) {
            ((false, false), (false, true)) => Some(Direction::CW),
            ((false, true), (true, true)) => Some(Direction::CW),
            ((true, true), (true, false)) => Some(Direction::CW),
            ((true, false), (false, false)) => Some(Direction::CW),
            ((true, false), (true, true)) => Some(Direction::CCW),
            ((true, true), (false, true)) => Some(Direction::CCW),
            ((false, true), (false, false)) => Some(Direction::CCW),
            ((false, false), (true, false)) => Some(Direction::CCW),
            _ => None,
        }
    }
}

/// A sample that repeats the one before it makes no pulse.
pub proof fn lemma_repeat_is_silent(sample: (bool, bool))
    ensures
        decode(sample, sample) is None,
{
}

/// A sample in which both channels differ from the one before makes no pulse.
pub proof fn lemma_double_flip_is_silent(sample: (bool, bool))
    ensures
        decode(sample, (!sample.0, !sample.1)) is None,
{
}

/// Turning a setting one way and then back the other way by the same amount
/// leaves it where it was.
pub proof fn lemma_turn_back(x: i16, y: u8, by: i16, by8: u8)
    ensures
        turned_i16(turned_i16(x, Direction::CW, by), Direction::CCW, by) == x,
        turned_i16(turned_i16(x, Direction::CCW, by), Direction::CW, by) == x,
        turned_u8(turned_u8(y, Direction::CW, by8), Direction::CCW, by8) == y,
        turned_u8(turned_u8(y, Direction::CCW, by8), Direction::CW, by8) == y,
{
}

/// Exactly one channel changes in every pulse, and the same two samples in
/// the other order make the opposite pulse.
pub proof fn lemma_pulse_reverses(last: (bool, bool), next: (bool, bool))
    ensures
        decode(last, next) is Some ==> (last.0 != next.0) != (last.1 != next.1),
        decode(last, next) == Some(Direction::CW) <==> decode(next, last) == Some(Direction::CCW),
{
}

} // verus!
