use glow::chase::{step, strip_colors, FAR, NEAR, STRIP};

#[test]
fn chase_colors_at_the_running_light() {
    for p in 0..STRIP {
        assert_eq!(strip_colors(p)[p], NEAR);
    }
    assert_eq!(NEAR, (0xff, 0x05, 0x00));
    assert_eq!(FAR, (0x00, 0x24, 0xff));
}

#[test]
fn chase_colors_fade_with_the_distance() {
    let c = strip_colors(0);
    assert_eq!(c[0], (255, 5, 0));
    assert_eq!(c[1], (223, 4 + 4, 31));
    assert_eq!(c[2], (191, 3 + 9, 63));
    assert_eq!(c[4], (127, 2 + 18, 127));
    assert_eq!(c[7], (31, 0 + 31, 223));
    let c = strip_colors(5);
    assert_eq!(c[5], (255, 5, 0));
    assert_eq!(c[4], c[6]);
    assert_eq!(c[3], c[7]);
    assert_eq!(c[0], (95, 1 + 22, 159));
}

#[test]
fn chase_colors_depend_on_the_distance_only() {
    for p in 0..STRIP {
        let c = strip_colors(p);
        for i in 0..STRIP {
            let d = p.abs_diff(i);
            assert_eq!(c[i], strip_colors(0)[d]);
        }
    }
}

#[test]
fn chase_runs_back_and_forth() {
    let mut at = (0usize, true);
    let mut seen = Vec::new();
    for _ in 0..16 {
        seen.push(at.0);
        at = step(at.0, at.1);
    }
    assert_eq!(seen, vec![0, 1, 2, 3, 4, 5, 6, 7, 6, 5, 4, 3, 2, 1, 0, 1]);
}

#[test]
fn chase_turns_round_at_the_ends() {
    assert_eq!(step(7, true), (6, false));
    assert_eq!(step(0, false), (1, true));
    assert_eq!(step(7, false), (6, false));
    assert_eq!(step(0, true), (1, true));
    assert_eq!(step(3, true), (4, true));
    assert_eq!(step(3, false), (2, false));
}
