use glow::hsv::HSV;
use glow::m6::{Generator, Node, Render, Topology};
use glow::render::{Rainbow, Zoom};

/// Colours each node by its ring and its petal.
struct Counter {
    base: i16,
}

impl Render for Counter {
    fn colors(&self, n: Node) -> (HSV, HSV) {
        let h = self.base + 10 * n.region.r() as i16 + n.idx;
        (HSV::new(h, 1, 2), HSV::new(h + 100, 3, 4))
    }

    fn render(&self, n: &Node) -> (HSV, HSV) {
        self.colors(*n)
    }
}

fn drain<R: Render>(g: &mut Generator<R>) -> Vec<HSV> {
    let mut out = Vec::new();
    while let Some(c) = g.next() {
        out.push(c);
    }
    out
}

#[test]
fn frame_has_38_colors_then_nothing() {
    let t = Topology::new();
    let r = Rainbow::new();
    let mut g = Generator::new(&t, &r);
    for _ in 0..38 {
        assert!(g.next().is_some());
    }
    for _ in 0..100 {
        assert_eq!(g.next(), None);
    }
}

#[test]
fn frame_of_every_strategy_has_38_colors() {
    let t = Topology::new();
    let rainbow = Rainbow::new();
    let zoom = Zoom::new();
    let counter = Counter { base: 7 };
    assert_eq!(drain(&mut Generator::new(&t, &rainbow)).len(), 38);
    assert_eq!(drain(&mut Generator::new(&t, &zoom)).len(), 38);
    assert_eq!(drain(&mut Generator::new(&t, &counter)).len(), 38);
}

#[test]
fn frame_is_the_pairs_of_the_nodes_in_order() {
    let t = Topology::new();
    let zoom = Zoom::new();
    let colors = drain(&mut Generator::new(&t, &zoom));
    for (i, n) in t.nodes().iter().enumerate() {
        let (a, b) = zoom.render(n);
        assert_eq!(colors[2 * i], a);
        assert_eq!(colors[2 * i + 1], b);
    }
}

#[test]
fn frame_of_a_strategy_from_outside() {
    let t = Topology::new();
    let counter = Counter { base: 7 };
    let colors = drain(&mut Generator::new(&t, &counter));
    assert_eq!(colors[0], HSV { h: 7, s: 1, v: 2 });
    assert_eq!(colors[1], HSV { h: 107, s: 3, v: 4 });
    assert_eq!(colors[2], HSV { h: 17, s: 1, v: 2 });
    assert_eq!(colors[14], HSV { h: 7 + 20 + 5, s: 1, v: 2 });
    assert_eq!(colors[37], HSV { h: 7 + 30 + 4 + 100, s: 3, v: 4 });
}

#[test]
fn rest_takes_what_is_left() {
    let t = Topology::new();
    let zoom = Zoom::new();
    let all = drain(&mut Generator::new(&t, &zoom));
    let mut g = Generator::new(&t, &zoom);
    assert_eq!(g.rest(), all);
    assert_eq!(g.next(), None);
    assert_eq!(g.rest(), Vec::new());
    for taken in [1usize, 2, 3, 18, 37, 38] {
        let mut g = Generator::new(&t, &zoom);
        for _ in 0..taken {
            g.next();
        }
        assert_eq!(g.rest(), all[taken..].to_vec());
        assert_eq!(g.next(), None);
    }
}

#[test]
fn a_fresh_generator_starts_the_frame_again() {
    let t = Topology::new();
    let mut rainbow = Rainbow::new();
    let first = drain(&mut Generator::new(&t, &rainbow));
    let again = drain(&mut Generator::new(&t, &rainbow));
    assert_eq!(first, again);
    rainbow.tick();
    let moved = drain(&mut Generator::new(&t, &rainbow));
    assert_ne!(first, moved);
}

#[test]
fn every_color_of_a_frame_is_on_the_wheel() {
    let t = Topology::new();
    let mut rainbow = Rainbow::new();
    let mut zoom = Zoom::new();
    for _ in 0..400 {
        for c in drain(&mut Generator::new(&t, &rainbow)) {
            assert!(c.h < 1535);
        }
        for c in drain(&mut Generator::new(&t, &zoom)) {
            assert!(c.h < 1535);
        }
        rainbow.tick();
        zoom.tick();
    }
}

#[test]
fn default_methods_do_nothing() {
    let mut counter = Counter { base: 3 };
    counter.tick();
    counter.knob1(glow::knob::Direction::CW);
    counter.knob2(glow::knob::Direction::CCW);
    assert_eq!(counter.base, 3);
    assert!(counter.debug().is_empty());
}
