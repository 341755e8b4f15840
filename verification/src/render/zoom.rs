//! Rings of colour that run outwards from the centre.

use crate::hsv::{lemma_wrap_hue_absorbs, normalize_hue, wrap_hue, HSV, HUE_MAX};
use crate::knob::{turn_i16, turned_i16, Direction};
use crate::m6::{Node, Region, Render};
use crate::text::{labelled, labelled_line, lemma_digits, lines_new, lines_of, lines_push};
use vstd::prelude::*;

verus! {

/// How many steps the two lights of a node lie out from the centre.
pub open spec fn shells(region: Region) -> (int, int) {
    match region {
        Region::Center => (0, 0),
        Region::Inner => (1, 3),
        Region::Ray => (2, 5),
        Region::Outer => (4, 6),
    }
}

/// The zoom's state: the hue at the centre, how fast that hue moves, and the
/// difference in hue from one shell to the next.
pub struct Zoom {
    hue: i16,
    speed: i16,
    step: i16,
}

impl Zoom {
    #[verifier::type_invariant]
    spec fn hue_on_the_wheel(self) -> bool {
        0 <= self.hue < HUE_MAX
    }

    /// The hue at the centre.
    pub closed spec fn hue(&self) -> i16 {
        self.hue
    }

    /// The steps by which the centre's hue grows at each tick.
    pub closed spec fn speed(&self) -> i16 {
        self.speed
    }

    /// The difference in hue between neighbouring shells.
    pub closed spec fn step(&self) -> i16 {
        self.step
    }

    /// A zoom that starts at hue 0, at speed 20, with 64 steps of hue back
    /// from each shell to the next.
    pub fn new() -> (z: Self)
        ensures
            z.hue() == 0,
            z.speed() == 20,
            z.step() == -64,
    {
        Zoom { hue: 0, speed: 20, step: -64 }
    }
}

impl Render for Zoom {
    open spec fn colors(&self, n: Node) -> (HSV, HSV) {
        (
            HSV {
                h: wrap_hue(self.hue() + shells(n.region).0 * self.step()) as u16,
                s: 0x60,
                v: 0x80,
            },
            HSV {
                h: wrap_hue(self.hue() + shells(n.region).1 * self.step()) as u16,
                s: 0x60,
                v: 0x80,
            },
        )
    }

    fn render(&self, n: &Node) -> (pair: (HSV, HSV)) {
        let (sa, sb): (i32, i32) = match n.region {
            Region::Center => (0, 0),
            Region::Inner => (1, 3),
            Region::Ray => (2, 5),
            Region::Outer => (4, 6),
        };
        let hue_a: u16 = normalize_hue(self.hue as i32 + sa * self.step as i32);
        let hue_b: u16 = normalize_hue(self.hue as i32 + sb * self.step as i32);
        (HSV { h: hue_a, s: 0x60, v: 0x80 }, HSV { h: hue_b, s: 0x60, v: 0x80 })
    }

    /// The centre's hue grows by the speed and is brought back onto the wheel.
    fn tick(&mut self)
        ensures
            final(self).hue() == wrap_hue(old(self).hue() + old(self).speed()),
            final(self).speed() == old(self).speed(),
            final(self).step() == old(self).step(),
    {
        self.hue = normalize_hue(self.hue as i32 + self.speed as i32) as i16;
    }

    /// Three lines: the speed, the hue and the step.
    fn debug(&self) -> (lines: heapless::Vec<heapless::String<16>, 8>)
        ensures
            lines_of(lines) == seq![
                labelled("speed: "@, self.speed() as int),
                labelled("hue: "@, self.hue() as int),
                labelled("step: "@, self.step() as int),
            ],
    {
        proof {
            reveal_strlit("speed: ");
            reveal_strlit("hue: ");
            reveal_strlit("step: ");
            lemma_digits(self.speed as nat);
            lemma_digits((-self.speed) as nat);
            lemma_digits(self.hue as nat);
            lemma_digits((-self.hue) as nat);
            lemma_digits(self.step as nat);
            lemma_digits((-self.step) as nat);
        }
        let mut lines: heapless::Vec<heapless::String<16>, 8> = lines_new();
        let _ = lines_push(&mut lines, labelled_line("speed: ", self.speed as i32));
        let _ = lines_push(&mut lines, labelled_line("hue: ", self.hue as i32));
        let _ = lines_push(&mut lines, labelled_line("step: ", self.step as i32));
        lines
    }

    /// The first knob changes the speed by one.
    fn knob1(&mut self, dir: Direction)
        ensures
            final(self).speed() == turned_i16(old(self).speed(), dir, 1),
            final(self).hue() == old(self).hue(),
            final(self).step() == old(self).step(),
    {
        proof {
            use_type_invariant(&*self);
        }
        self.speed = turn_i16(self.speed, dir, 1);
    }

    /// The second knob changes the step by one.
    fn knob2(&mut self, dir: Direction)
        ensures
            final(self).step() == turned_i16(old(self).step(), dir, 1),
            final(self).hue() == old(self).hue(),
            final(self).speed() == old(self).speed(),
    {
        proof {
            use_type_invariant(&*self);
        }
        self.step = turn_i16(self.step, dir, 1);
    }
}

/// The centre shows the base hue on both lights, and every other light lies
/// a whole number of steps from it.
pub proof fn lemma_shells_from_the_centre(z: Zoom, n: Node)
    ensures
        n.region == Region::Center ==> z.colors(n).0.h == wrap_hue(z.hue() as int) && z.colors(
            n,
        ).1.h == wrap_hue(z.hue() as int),
        z.colors(n).0.h == wrap_hue(z.hue() + shells(n.region).0 * z.step()),
        z.colors(n).1.h == wrap_hue(z.hue() + shells(n.region).1 * z.step()),
        0 <= shells(n.region).0 <= shells(n.region).1 <= 6,
{
}

/// A tick turns every colour of the zoom round the wheel by the speed.
pub proof fn lemma_tick_turns_the_zoom(before: Zoom, after: Zoom, n: Node)
    requires
        after.hue() == wrap_hue(before.hue() + before.speed()),
        after.step() == before.step(),
    ensures
        after.colors(n).0.h == wrap_hue(before.colors(n).0.h + before.speed()),
        after.colors(n).1.h == wrap_hue(before.colors(n).1.h + before.speed()),
{
    let a = shells(n.region).0 * before.step();
    let b = shells(n.region).1 * before.step();
    lemma_wrap_hue_absorbs(before.hue() + before.speed(), a);
    lemma_wrap_hue_absorbs(before.hue() + a, before.speed() as int);
    lemma_wrap_hue_absorbs(before.hue() + before.speed(), b);
    lemma_wrap_hue_absorbs(before.hue() + b, before.speed() as int);
}

} // verus!
