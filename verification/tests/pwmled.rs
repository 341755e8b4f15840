use glow::pwmled::duty_for;

#[test]
fn duty_is_the_level_times_a_256th_of_full() {
    assert_eq!(duty_for(0, 255), 0);
    assert_eq!(duty_for(255, 255), 0);
    assert_eq!(duty_for(256, 255), 255);
    assert_eq!(duty_for(256, 0), 0);
    assert_eq!(duty_for(1000, 10), 30);
    assert_eq!(duty_for(8000, 178), 31 * 178);
    assert_eq!(duty_for(u16::MAX, 255), 255 * 255);
    assert_eq!(duty_for(u16::MAX, 1), 255);
}

#[test]
fn duty_never_exceeds_full() {
    for max in [0u16, 1, 255, 256, 257, 511, 512, 4000, 65535] {
        for level in [0u8, 1, 128, 255] {
            assert!(duty_for(max, level) <= max);
        }
    }
}
