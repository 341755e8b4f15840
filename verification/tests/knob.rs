use glow::knob::{turn_i16, turn_u8, Direction, Knob};

const F: bool = false;
const T: bool = true;

fn pulse(last: (bool, bool), next: (bool, bool)) -> Option<Direction> {
    let mut knob = Knob::new();
    knob.poll(F, F);
    // walk to `last` without caring about the pulses on the way
    knob.poll(last.0, last.1);
    knob.poll(next.0, next.1)
}

#[test]
fn clockwise_transitions() {
    assert_eq!(pulse((F, F), (F, T)), Some(Direction::CW));
    assert_eq!(pulse((F, T), (T, T)), Some(Direction::CW));
    assert_eq!(pulse((T, T), (T, F)), Some(Direction::CW));
    assert_eq!(pulse((T, F), (F, F)), Some(Direction::CW));
}

#[test]
fn counter_clockwise_transitions() {
    assert_eq!(pulse((T, F), (T, T)), Some(Direction::CCW));
    assert_eq!(pulse((T, T), (F, T)), Some(Direction::CCW));
    assert_eq!(pulse((F, T), (F, F)), Some(Direction::CCW));
    assert_eq!(pulse((F, F), (T, F)), Some(Direction::CCW));
}

#[test]
fn repeated_sample_is_silent() {
    for a in [F, T] {
        for b in [F, T] {
            assert_eq!(pulse((a, b), (a, b)), None);
            let mut knob = Knob::new();
            knob.poll(a, b);
            for _ in 0..5 {
                assert_eq!(knob.poll(a, b), None);
            }
        }
    }
}

#[test]
fn double_flip_is_silent() {
    for a in [F, T] {
        for b in [F, T] {
            assert_eq!(pulse((a, b), (!a, !b)), None);
        }
    }
}

#[test]
fn new_knob_starts_with_both_channels_low() {
    assert_eq!(Knob::new().poll(F, F), None);
    assert_eq!(Knob::new().poll(F, T), Some(Direction::CW));
    assert_eq!(Knob::new().poll(T, F), Some(Direction::CCW));
    assert_eq!(Knob::new().poll(T, T), None);
}

#[test]
fn poll_remembers_the_sample_whatever_it_reports() {
    let mut knob = Knob::new();
    assert_eq!(knob.poll(T, T), None);
    assert_eq!(knob.poll(T, F), Some(Direction::CW));
    assert_eq!(knob.poll(F, T), None);
    assert_eq!(knob.poll(F, F), Some(Direction::CCW));
}

#[test]
fn a_full_turn_each_way() {
    let mut knob = Knob::new();
    let cycle = [(F, T), (T, T), (T, F), (F, F)];
    for s in cycle {
        assert_eq!(knob.poll(s.0, s.1), Some(Direction::CW));
    }
    for s in [(T, F), (T, T), (F, T), (F, F)] {
        assert_eq!(knob.poll(s.0, s.1), Some(Direction::CCW));
    }
}

#[test]
fn every_transition_matches_the_table() {
    let samples = [(F, F), (F, T), (T, T), (T, F)];
    for (i, last) in samples.iter().enumerate() {
        for (j, next) in samples.iter().enumerate() {
            let expected = match (j + 4 - i) % 4 {
                1 => Some(Direction::CW),
                3 => Some(Direction::CCW),
                _ => None,
            };
            assert_eq!(pulse(*last, *next), expected);
        }
    }
}

#[test]
fn turning_a_setting_up_and_down() {
    assert_eq!(turn_i16(10, Direction::CW, 1), 11);
    assert_eq!(turn_i16(10, Direction::CCW, 1), 9);
    assert_eq!(turn_i16(-64, Direction::CW, 8), -56);
    assert_eq!(turn_i16(0, Direction::CCW, 8), -8);
    assert_eq!(turn_u8(254, Direction::CW, 1), 255);
    assert_eq!(turn_u8(1, Direction::CCW, 1), 0);
    assert_eq!(turn_u8(7, Direction::CW, 0), 7);
}

#[test]
fn turning_a_setting_past_an_end_wraps() {
    assert_eq!(turn_i16(i16::MAX, Direction::CW, 1), i16::MIN);
    assert_eq!(turn_i16(i16::MIN, Direction::CCW, 1), i16::MAX);
    assert_eq!(turn_i16(32760, Direction::CW, 8), -32768);
    assert_eq!(turn_i16(-32768, Direction::CCW, 8), 32760);
    assert_eq!(turn_i16(i16::MAX, Direction::CW, i16::MAX), -2);
    assert_eq!(turn_i16(5, Direction::CCW, i16::MIN), 5i16.wrapping_sub(i16::MIN));
    assert_eq!(turn_u8(255, Direction::CW, 1), 0);
    assert_eq!(turn_u8(0, Direction::CCW, 1), 255);
    assert_eq!(turn_u8(200, Direction::CW, 100), 44);
    assert_eq!(turn_u8(10, Direction::CCW, 255), 11);
}

#[test]
fn turning_back_restores_the_setting() {
    for x in [i16::MIN, -1, 0, 1, 1234, i16::MAX] {
        for by in [i16::MIN, -3, 0, 1, 8, i16::MAX] {
            assert_eq!(turn_i16(turn_i16(x, Direction::CW, by), Direction::CCW, by), x);
            assert_eq!(turn_i16(turn_i16(x, Direction::CCW, by), Direction::CW, by), x);
        }
    }
    for x in [0u8, 1, 128, 255] {
        for by in [0u8, 1, 8, 255] {
            assert_eq!(turn_u8(turn_u8(x, Direction::CW, by), Direction::CCW, by), x);
        }
    }
}
