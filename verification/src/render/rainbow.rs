//! A rainbow that turns round the flower.

use crate::hsv::{lemma_wrap_hue_absorbs, normalize_hue, wrap_hue, HSV, HUE_MAX};
use crate::knob::{turn_i16, turn_u8, turned_i16, turned_u8, Direction};
use crate::m6::{Angle, Node, Region, Render};
use crate::ratio::{
    lemma_lowest_terms, lemma_whole_part_of_lowest_terms, ratio_add, ratio_scale, ratio_to_integer,
};
use crate::text::{labelled, labelled_line, lemma_digits, lines_new, lines_of, lines_push};
use vstd::arithmetic::div_mod::lemma_div_multiples_vanish_quotient;
use vstd::prelude::*;

verus! {

/// How far the two lights of a node stand from the node's own angle, as
/// fractions of a turn. A ray is split into two hues; everywhere else the twins
/// show the same colour.
pub open spec fn spread(region: Region) -> ((int, int), (int, int)) {
    match region {
        Region::Ray => ((1, 24), (3, 24)),
        _ => ((0, 12), (0, 12)),
    }
}

/// The hue at an angle that is moved by `by.0 / by.1` of a turn: the whole part
/// of the sum of the two fractions times the length of the wheel.
pub open spec fn hue_at(angle: Angle, by: (int, int)) -> int {
    ((angle.numer * by.1 + by.0 * angle.denom) * HUE_MAX) / (angle.denom * by.1)
}

/// The hue at a node's angle moved by `by.0 / by.1` of a turn.
fn hue_of(angle: &Angle, by: (i16, i16)) -> (hue: i16)
    requires
        angle.wf(),
        0 <= by.0 < by.1,
    ensures
        hue == hue_at(*angle, (by.0 as int, by.1 as int)),
        0 <= hue < 2 * HUE_MAX,
{
    let ghost n = angle.numer * by.1 + by.0 * angle.denom;
    let ghost d = angle.denom * by.1;
    proof {
        assert(0 <= n < 2 * d && 0 < d <= 0x7fff * 0x7fff) by (nonlinear_arith)
            requires
                n == angle.numer * by.1 + by.0 * angle.denom,
                d == angle.denom * by.1,
                0 <= angle.numer < angle.denom <= 0x7fff,
                0 <= by.0 < by.1 <= 0x7fff,
        ;
    }
    let sum: (i64, i64) = ratio_add(
        (angle.numer as i64, angle.denom as i64),
        (by.0 as i64, by.1 as i64),
    );
    let ghost g = lemma_lowest_terms(n, d);
    let scaled: (i64, i64) = ratio_scale(sum, HUE_MAX as i64);
    proof {
        lemma_lowest_terms(sum.0 * HUE_MAX, sum.1 as int);
        lemma_whole_part_of_lowest_terms(sum.0 * HUE_MAX, sum.1 as int);
    }
    let whole: i64 = ratio_to_integer(scaled);
    proof {
        assert(n * HUE_MAX == g * (sum.0 * HUE_MAX)) by (nonlinear_arith)
            requires
                n == g * sum.0,
        ;
        lemma_div_multiples_vanish_quotient(g, sum.0 * HUE_MAX, sum.1 as int);
        assert((n * HUE_MAX) / d < 2 * HUE_MAX) by (nonlinear_arith)
            requires
                0 <= n < 2 * d,
                0 < d,
                HUE_MAX > 0,
        ;
        assert((n * HUE_MAX) / d >= 0) by (nonlinear_arith)
            requires
                0 <= n,
                0 < d,
                HUE_MAX > 0,
        ;
    }
    whole as i16
}

/// The rainbow's state: how far it has turned, how fast it turns, and how
/// strong its colours are.
pub struct Rainbow {
    offset: i16,
    speed: i16,
    saturation: u8,
}

impl Rainbow {
    #[verifier::type_invariant]
    spec fn offset_on_the_wheel(self) -> bool {
        0 <= self.offset < HUE_MAX
    }

    /// The hue that is added to every node's own hue.
    pub closed spec fn offset(&self) -> i16 {
        self.offset
    }

    /// The steps by which the offset grows at each tick.
    pub closed spec fn speed(&self) -> i16 {
        self.speed
    }

    /// The saturation of every colour.
    pub closed spec fn saturation(&self) -> u8 {
        self.saturation
    }

    /// A rainbow that has not turned yet, at speed 10 and full saturation.
    pub fn new() -> (r: Self)
        ensures
            r.offset() == 0,
            r.speed() == 10,
            r.saturation() == 0xff,
    {
        Rainbow { offset: 0, speed: 10, saturation: 0xff }
    }
}

impl Render for Rainbow {
    open spec fn colors(&self, n: Node) -> (HSV, HSV) {
        (
            HSV {
                h: wrap_hue(self.offset() + hue_at(n.angle, spread(n.region).0)) as u16,
                s: self.saturation(),
                v: 0x80,
            },
            HSV {
                h: wrap_hue(self.offset() + hue_at(n.angle, spread(n.region).1)) as u16,
                s: self.saturation(),
                v: 0x80,
            },
        )
    }

    fn render(&self, n: &Node) -> (pair: (HSV, HSV)) {
        proof {
            use_type_invariant(self);
        }
        let (by_a, by_b): ((i16, i16), (i16, i16)) = match n.region {
            Region::Ray => ((1, 24), (3, 24)),
            _ => ((0, 12), (0, 12)),
        };
        let hue_a: i16 = hue_of(&n.angle, by_a);
        let hue_b: i16 = hue_of(&n.angle, by_b);
        let a: HSV = HSV::new(self.offset + hue_a, self.saturation, 0x80);
        let b: HSV = HSV::new(self.offset + hue_b, self.saturation, 0x80);
        (a, b)
    }

    /// The offset grows by the speed and is brought back onto the wheel.
    fn tick(&mut self)
        ensures
            final(self).offset() == wrap_hue(old(self).offset() + old(self).speed()),
            final(self).speed() == old(self).speed(),
            final(self).saturation() == old(self).saturation(),
    {
        self.offset = normalize_hue(self.offset as i32 + self.speed as i32) as i16;
    }

    /// Three lines: the speed, the offset and the saturation.
    fn debug(&self) -> (lines: heapless::Vec<heapless::String<16>, 8>)
        ensures
            lines_of(lines) == seq![
                labelled("speed: "@, self.speed() as int),
                labelled("offset: "@, self.offset() as int),
                labelled("saturation: "@, self.saturation() as int),
            ],
    {
        proof {
            reveal_strlit("speed: ");
            reveal_strlit("offset: ");
            reveal_strlit("saturation: ");
            lemma_digits(self.speed as nat);
            lemma_digits((-self.speed) as nat);
            lemma_digits(self.offset as nat);
            lemma_digits((-self.offset) as nat);
            lemma_digits(self.saturation as nat);
        }
        let mut lines: heapless::Vec<heapless::String<16>, 8> = lines_new();
        let _ = lines_push(&mut lines, labelled_line("speed: ", self.speed as i32));
        let _ = lines_push(&mut lines, labelled_line("offset: ", self.offset as i32));
        let _ = lines_push(&mut lines, labelled_line("saturation: ", self.saturation as i32));
        lines
    }

    /// The first knob changes the speed by one.
    fn knob1(&mut self, dir: Direction)
        ensures
            final(self).speed() == turned_i16(old(self).speed(), dir, 1),
            final(self).offset() == old(self).offset(),
            final(self).saturation() == old(self).saturation(),
    {
        proof {
            use_type_invariant(&*self);
        }
        self.speed = turn_i16(self.speed, dir, 1);
    }

    /// The second knob changes the saturation by one.
    fn knob2(&mut self, dir: Direction)
        ensures
            final(self).saturation() == turned_u8(old(self).saturation(), dir, 1),
            final(self).offset() == old(self).offset(),
            final(self).speed() == old(self).speed(),
    {
        proof {
            use_type_invariant(&*self);
        }
        self.saturation = turn_u8(self.saturation, dir, 1);
    }
}

/// Off the rays the two lights of a node show the same colour.
pub proof fn lemma_twins_agree_off_the_rays(r: Rainbow, n: Node)
    requires
        n.region != Region::Ray,
    ensures
        r.colors(n).0 == r.colors(n).1,
{
}

/// A tick turns every colour of the rainbow round the wheel by the speed, and
/// changes nothing else about it.
pub proof fn lemma_tick_turns_the_rainbow(before: Rainbow, after: Rainbow, n: Node)
    requires
        after.offset() == wrap_hue(before.offset() + before.speed()),
        after.saturation() == before.saturation(),
    ensures
        after.colors(n).0.h == wrap_hue(before.colors(n).0.h + before.speed()),
        after.colors(n).1.h == wrap_hue(before.colors(n).1.h + before.speed()),
        after.colors(n).0.s == before.colors(n).0.s,
        after.colors(n).0.v == before.colors(n).0.v,
        after.colors(n).1.s == before.colors(n).1.s,
        after.colors(n).1.v == before.colors(n).1.v,
{
    let a = hue_at(n.angle, spread(n.region).0);
    let b = hue_at(n.angle, spread(n.region).1);
    lemma_wrap_hue_absorbs(before.offset() + before.speed(), a);
    lemma_wrap_hue_absorbs(before.offset() + a, before.speed() as int);
    lemma_wrap_hue_absorbs(before.offset() + before.speed(), b);
    lemma_wrap_hue_absorbs(before.offset() + b, before.speed() as int);
}

} // verus!
