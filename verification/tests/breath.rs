use glow::hsv::HSV;
use glow::render::breath::{breath_color, BREATH_SATURATION, BREATH_VALUE};

#[test]
fn breath_color_at_rest() {
    assert_eq!(breath_color(0, 0, 0), HSV { h: 0, s: 0xa0, v: 128 });
    assert_eq!((BREATH_SATURATION, BREATH_VALUE), (0xa0, 128));
}

#[test]
fn breath_color_shifts_the_hue_round_the_wheel() {
    assert_eq!(breath_color(100, 28, 0).h, 128);
    assert_eq!(breath_color(1500, 40, 0).h, 5);
    assert_eq!(breath_color(8, -16, 0).h, 1527);
    assert_eq!(breath_color(-8, 0, 0).h, 1527);
    assert_eq!(breath_color(i16::MAX, i16::MAX, 0).h, (65534 % 1535) as u16);
    assert_eq!(breath_color(i16::MIN, i16::MIN, 0).h as i32, (-65536i32).rem_euclid(1535));
}

#[test]
fn breath_color_lifts_the_value() {
    assert_eq!(breath_color(0, 0, 64).v, 192);
    assert_eq!(breath_color(0, 0, 127).v, 255);
    assert_eq!(breath_color(0, 0, 128).v, 0);
    assert_eq!(breath_color(0, 0, 255).v, 127);
}
