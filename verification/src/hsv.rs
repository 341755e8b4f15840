//! Hue/saturation/value colours on a six-sextant hue wheel, with a fixed-point
//! conversion to 8-bit RGB and a gamma table for LED brightness.

use vstd::prelude::*;

verus! {

/// Length of the hue wheel: hues live in `[0, HUE_MAX)`.
pub const HUE_MAX: i16 = (256 * 6) - 1;

/// Perceptual brightness curve, indexed by a linear 8-bit channel.
pub const GAMMA: [u8; 256] = [
    0, 0, 0, 0, 0, 0, 0, 0, 0, 0, 0, 0, 0, 0, 0, 0, 0, 0, 0, 0, 0, 0, 0, 0, 0, 0, 0, 0, 1, 1, 1, 1,
    1, 1, 1, 1, 1, 1, 1, 1, 1, 2, 2, 2, 2, 2, 2, 2, 2, 3, 3, 3, 3, 3, 3, 3, 4, 4, 4, 4, 4, 5, 5, 5,
    5, 6, 6, 6, 6, 7, 7, 7, 7, 8, 8, 8, 9, 9, 9, 10, 10, 10, 11, 11, 11, 12, 12, 13, 13, 13, 14,
    14, 15, 15, 16, 16, 17, 17, 18, 18, 19, 19, 20, 20, 21, 21, 22, 22, 23, 24, 24, 25, 25, 26, 27,
    27, 28, 29, 29, 30, 31, 32, 32, 33, 34, 35, 35, 36, 37, 38, 39, 39, 40, 41, 42, 43, 44, 45, 46,
    47, 48, 49, 50, 50, 51, 52, 54, 55, 56, 57, 58, 59, 60, 61, 62, 63, 64, 66, 67, 68, 69, 70, 72,
    73, 74, 75, 77, 78, 79, 81, 82, 83, 85, 86, 87, 89, 90, 92, 93, 95, 96, 98, 99, 101, 102, 104,
    105, 107, 109, 110, 112, 114, 115, 117, 119, 120, 122, 124, 126, 127, 129, 131, 133, 135, 137,
    138, 140, 142, 144, 146, 148, 150, 152, 154, 156, 158, 160, 162, 164, 167, 169, 171, 173, 175,
    177, 180, 182, 184, 186, 189, 191, 193, 196, 198, 200, 203, 205, 208, 210, 213, 215, 218, 220,
    223, 225, 228, 231, 233, 236, 239, 241, 244, 247, 249, 252, 255,
];

/// The hue in `[0, HUE_MAX)` that lies `h` steps round the wheel from hue zero.
pub open spec fn wrap_hue(h: int) -> int {
    h % (HUE_MAX as int)
}

/// Brings any hue offset back onto the wheel.
pub fn normalize_hue(h: i32) -> (r: u16)
    ensures
        r == wrap_hue(h as int),
        r < HUE_MAX,
{
    assert(HUE_MAX == 1535);
    let m: i32 = h % (HUE_MAX as i32);
    let n: i32 = if m < 0 { m + HUE_MAX as i32 } else { m };
    n as u16
}

/// The gamma-corrected brightness of a linear channel.
pub open spec fn gamma_curve(channel: u8) -> u8 {
    GAMMA[channel as int]
}

/// Looks a linear channel up in the gamma table.
pub fn apply_gamma(channel: u8) -> (r: u8)
    ensures
        r == gamma_curve(channel),
{
    GAMMA[channel as usize]
}

/// The least bright channel of a colour: `v * (1 - s)` in 8.8 fixed point,
/// rounded by folding the high byte back in.
pub open spec fn bottom_level(s: u8, v: u8) -> int {
    let ww = v * (255 - s) + 1;
    (ww + ww / 256) / 256
}

/// The channel that moves within a sextant. It climbs from the bottom level to
/// `v` across an even sextant and falls back across an odd one; the low byte of
/// the hue says how far across the sextant the colour lies.
pub open spec fn slope_level(h: u16, s: u8, v: u8) -> int {
    let frac = h % 256;
    let d = if (h / 256) % 2 == 0 {
        v * (65280 - s * (256 - frac))
    } else {
        v * (65280 - s * frac)
    };
    (d + d / 256 + v) / 65536
}

/// Red, green and blue of a colour with saturation above zero. The sextant (the
/// hue's high byte) decides which channel stays at `v`, which stays at the bottom
/// level and which moves: red to yellow, on to green, cyan, blue, magenta and
/// back to red. Of a hue off the wheel only the low three bits of the high byte
/// count.
pub open spec fn sextant_rgb(h: u16, s: u8, v: u8) -> (int, int, int) {
    let top = v as int;
    let low = bottom_level(s, v);
    let mid = slope_level(h, s, v);
    let sextant = (h / 256) % 8;
    if sextant == 0 {
        (top, mid, low)
    } else if sextant == 1 {
        (mid, top, low)
    } else if sextant == 2 {
        (low, top, mid)
    } else if sextant == 3 {
        (low, mid, top)
    } else if sextant == 4 {
        (mid, low, top)
    } else if sextant == 5 {
        (top, low, mid)
    } else if sextant == 6 {
        (top, low, mid)
    } else {
        (mid, low, top)
    }
}

/// A colour as hue, saturation and value.
#[derive(Clone, Copy, Debug, PartialEq, Eq, Structural)]
pub struct HSV {
    pub h: u16,
    pub s: u8,
    pub v: u8,
}

impl HSV {
    /// The hue lies on the wheel.
    pub open spec fn wf(&self) -> bool {
        self.h < HUE_MAX
    }

    /// Red, green and blue of this colour, each in `0..=255`.
    pub open spec fn rgb(&self) -> (int, int, int) {
        if self.s == 0 {
            (self.v as int, self.v as int, self.v as int)
        } else {
            sextant_rgb(self.h, self.s, self.v)
        }
    }

    /// The hue `d` steps further round the wheel. A negative step is undone by
    /// whole turns until the hue is no longer negative; any other sum is reduced
    /// modulo the wheel's length.
    pub open spec fn hue_after(&self, d: i16) -> int {
        let sum = self.h + d;
        if d < 0 && sum >= 0 {
            sum
        } else {
            wrap_hue(sum)
        }
    }

    /// A colour whose hue is `h` brought onto the wheel.
    pub fn new(h: i16, s: u8, v: u8) -> (c: Self)
        ensures
            c.h == wrap_hue(h as int),
            c.s == s,
            c.v == v,
            c.wf(),
    {
        HSV { h: normalize_hue(h as i32), s, v }
    }

    /// Converts to 8-bit red, green and blue in unsigned fixed point.
    pub fn to_rgb(&self) -> (rgb: (u8, u8, u8))
        ensures
            (rgb.0 as int, rgb.1 as int, rgb.2 as int) == self.rgb(),
            self.s == 0 ==> rgb == (self.v, self.v, self.v),
    {
        let h: u16 = self.h;
        let s: u8 = self.s;
        let v: u8 = self.v;
        if s == 0 {
            return (v, v, v);
        }
        let sextant: u16 = (h >> 8) & 7;
        let frac: u32 = (h as u32) & 0xff;
        assert(h >> 8 == h / 256) by (bit_vector);
        assert((h >> 8) & 7 == (h >> 8) % 8) by (bit_vector);
        assert((h as u32) & 0xff == h % 256) by (bit_vector);

        assert(0 <= v * (255 - s) <= 65025) by (nonlinear_arith)
            requires
                0 <= v <= 255,
                0 <= 255 - s <= 255,
        ;
        let mut ww: u16 = v as u16 * (255 - s as u16);
        ww += 1;
        assert(ww >> 8 == ww / 256) by (bit_vector);
        ww += ww >> 8;
        assert(ww >> 8 == ww / 256) by (bit_vector);
        let low: u8 = (ww >> 8) as u8;

        assert(sextant & 1 == sextant % 2) by (bit_vector);
        assert((255u32 << 8) == 65280) by (bit_vector);
        assert(0 <= s * (256 - frac) <= 65280 && 0 <= s * frac <= 65280) by (nonlinear_arith)
            requires
                0 <= s <= 255,
                0 <= frac <= 255,
        ;
        let span: u32 = if sextant & 1 == 0 {
            (255 << 8) - (s as u32 * (256 - frac))
        } else {
            (255 << 8) - (s as u32 * frac)
        };
        assert(0 <= v * span <= 16646400) by (nonlinear_arith)
            requires
                0 <= v <= 255,
                0 <= span <= 65280,
        ;
        let mut d: u32 = v as u32 * span;
        assert(d >> 8 == d / 256) by (bit_vector);
        d += d >> 8;
        d += v as u32;
        assert(d >> 16 == d / 65536) by (bit_vector);
        let mid: u8 = (d >> 16) as u8;

        if sextant == 0 {
            (v, mid, low)
        } else if sextant == 1 {
            (mid, v, low)
        } else if sextant == 2 {
            (low, v, mid)
        } else if sextant == 3 {
            (low, mid, v)
        } else if sextant == 4 {
            (mid, low, v)
        } else if sextant == 5 {
            (v, low, mid)
        } else if sextant == 6 {
            (v, low, mid)
        } else {
            (mid, low, v)
        }
    }

    /// The colour as it is handed to an LED driver: `to_rgb` with the gamma
    /// table applied to each channel.
    pub fn to_gamma_rgb(&self) -> (rgb: (u8, u8, u8))
        ensures
            rgb.0 == gamma_curve(self.rgb().0 as u8),
            rgb.1 == gamma_curve(self.rgb().1 as u8),
            rgb.2 == gamma_curve(self.rgb().2 as u8),
    {
        let (r, g, b): (u8, u8, u8) = self.to_rgb();
        (apply_gamma(r), apply_gamma(g), apply_gamma(b))
    }

    /// Moves the hue `d` steps round the wheel, leaving saturation and value.
    pub fn shift_hue(&mut self, d: i16)
        ensures
            final(self).h == old(self).hue_after(d),
            final(self).s == old(self).s,
            final(self).v == old(self).v,
            old(self).wf() ==> final(self).wf() && final(self).h == wrap_hue(old(self).h + d),
    {
        assert(HUE_MAX == 1535);
        let mut hue: i32 = self.h as i32 + d as i32;
        if d < 0 {
            while hue < 0
                invariant
                    old(self).h + d >= 0 ==> hue == old(self).h + d,
                    old(self).h + d < 0 ==> hue < HUE_MAX && wrap_hue(hue as int) == wrap_hue(
                        old(self).h + d,
                    ),
                decreases HUE_MAX - hue,
            {
                assert(HUE_MAX == 1535);
                hue += HUE_MAX as i32;
            }
        } else {
            hue = hue % (HUE_MAX as i32);
        }
        self.h = hue as u16;
    }

    /// This colour with its hue moved `d` steps round the wheel.
    pub fn shifted_hue(&self, d: i16) -> (next: Self)
        ensures
            next.h == self.hue_after(d),
            next.s == self.s,
            next.v == self.v,
            self.wf() ==> next.wf() && next.h == wrap_hue(self.h + d),
    {
        let mut next: HSV = *self;
        next.shift_hue(d);
        next
    }
}

/// A hue on the wheel stays on the wheel when it is shifted, by any step.
pub proof fn lemma_shift_hue_stays_on_the_wheel(c: HSV, d: i16)
    requires
        c.wf(),
    ensures
        0 <= c.hue_after(d) < HUE_MAX,
        c.hue_after(d) == wrap_hue(c.h + d),
{
    assert(HUE_MAX == 1535);
}

/// Shifting by `d` and then by `-d` brings every hue on the wheel back to
/// where it was. The least step has no opposite and is left out.
pub proof fn lemma_shift_hue_round_trip(c: HSV, d: i16)
    requires
        c.wf(),
        d > i16::MIN,
    ensures
        (HSV { h: c.hue_after(d) as u16, s: c.s, v: c.v }).hue_after((-d) as i16) == c.h,
{
    assert(HUE_MAX == 1535);
}

/// Wrapping an intermediate sum does not change where a further step lands.
pub proof fn lemma_wrap_hue_absorbs(a: int, b: int)
    ensures
        wrap_hue(wrap_hue(a) + b) == wrap_hue(a + b),
{
    vstd::arithmetic::div_mod::lemma_add_mod_noop(a, b, HUE_MAX as int);
    vstd::arithmetic::div_mod::lemma_add_mod_noop(wrap_hue(a), b, HUE_MAX as int);
    vstd::arithmetic::div_mod::lemma_mod_twice(a, HUE_MAX as int);
}

/// Without saturation a colour is grey: all three channels equal its value,
/// whatever its hue.
pub proof fn lemma_grey_without_saturation(c: HSV)
    requires
        c.s == 0,
    ensures
        c.rgb() == (c.v as int, c.v as int, c.v as int),
{
}

/// No channel is brighter than the value, and the bottom level never lies above
/// the moving channel's ceiling: every channel is in `0..=v`.
pub proof fn lemma_channels_bounded(c: HSV)
    ensures
        0 <= c.rgb().0 <= c.v,
        0 <= c.rgb().1 <= c.v,
        0 <= c.rgb().2 <= c.v,
{
    lemma_levels_bounded(c.h, c.s, c.v);
}

/// At full saturation the six sextants begin at red, yellow, green, cyan, blue
/// and magenta: every channel is dark or carries the whole value.
pub proof fn lemma_pure_colours_at_the_boundaries(v: u8)
    ensures
        (HSV { h: 0, s: 255, v }).rgb() == (v as int, 0int, 0int),
        (HSV { h: 256, s: 255, v }).rgb() == (v as int, v as int, 0int),
        (HSV { h: 512, s: 255, v }).rgb() == (0int, v as int, 0int),
        (HSV { h: 768, s: 255, v }).rgb() == (0int, v as int, v as int),
        (HSV { h: 1024, s: 255, v }).rgb() == (0int, 0int, v as int),
        (HSV { h: 1280, s: 255, v }).rgb() == (v as int, 0int, v as int),
{
    assert(v * (65280 - 255 * 256) == 0) by (nonlinear_arith);
    assert(slope_level(0, 255, v) == 0 && slope_level(512, 255, v) == 0 && slope_level(
        1024,
        255,
        v,
    ) == 0);
    assert(slope_level(256, 255, v) == v && slope_level(768, 255, v) == v && slope_level(
        1280,
        255,
        v,
    ) == v);
}

/// Within a sextant the moving channel never falls as the hue grows if the
/// sextant is even, and never rises if it is odd.
pub proof fn lemma_slope_rises_and_falls(h1: u16, h2: u16, s: u8, v: u8)
    requires
        h1 / 256 == h2 / 256,
        h1 <= h2,
    ensures
        (h1 / 256) % 2 == 0 ==> slope_level(h1, s, v) <= slope_level(h2, s, v),
        (h1 / 256) % 2 == 1 ==> slope_level(h1, s, v) >= slope_level(h2, s, v),
{
    let f1 = h1 % 256;
    let f2 = h2 % 256;
    assert(v * (65280 - s * (256 - f1)) <= v * (65280 - s * (256 - f2)) && v * (65280 - s * f1)
        >= v * (65280 - s * f2)) by (nonlinear_arith)
        requires
            0 <= f1 <= f2,
            0 <= s,
            0 <= v,
    ;
}

/// At full saturation one channel is dark and one carries the whole value, at
/// every hue: the colours run round the rim of the wheel.
pub proof fn lemma_full_saturation_rim(c: HSV)
    requires
        c.s == 255,
    ensures
        c.rgb().0 == 0 || c.rgb().1 == 0 || c.rgb().2 == 0,
        c.rgb().0 == c.v || c.rgb().1 == c.v || c.rgb().2 == c.v,
{
}

/// The gamma curve never falls as the channel grows, and it keeps both ends of
/// the range: dark stays dark and full brightness stays full.
#[verifier::rlimit(50)]
pub proof fn lemma_gamma_monotonic(a: u8, b: u8)
    requires
        a <= b,
    ensures
        gamma_curve(a) <= gamma_curve(b),
        gamma_curve(0) == 0,
        gamma_curve(255) == 255,
{
}

/// Both computed levels lie in `0..=v`.
pub proof fn lemma_levels_bounded(h: u16, s: u8, v: u8)
    ensures
        0 <= bottom_level(s, v) <= v,
        0 <= slope_level(h, s, v) <= v,
{
    let frac = h % 256;
    assert(0 <= v * (255 - s) <= v * 255) by (nonlinear_arith)
        requires
            0 <= v,
            0 <= 255 - s <= 255,
    ;
    let span = if (h / 256) % 2 == 0 {
        65280 - s * (256 - frac)
    } else {
        65280 - s * frac
    };
    assert(0 <= s * (256 - frac) <= 65280 && 0 <= s * frac <= 65280) by (nonlinear_arith)
        requires
            0 <= s <= 255,
            0 <= frac <= 255,
    ;
    assert(0 <= v * span <= v * 65280) by (nonlinear_arith)
        requires
            0 <= v,
            0 <= span <= 65280,
    ;
}

} // verus!
