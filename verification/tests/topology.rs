use glow::m6::{build_nodes, Angle, Node, Region, Topology};

fn node(region: Region, numer: i16, denom: i16, idx: i16) -> Node {
    Node { region, angle: Angle { numer, denom }, idx }
}

fn expected() -> [Node; 19] {
    [
        node(Region::Center, 0, 1, 0),
        node(Region::Inner, 0, 1, 0),
        node(Region::Inner, 1, 6, 1),
        node(Region::Inner, 1, 3, 2),
        node(Region::Inner, 1, 2, 3),
        node(Region::Inner, 2, 3, 4),
        node(Region::Inner, 5, 6, 5),
        node(Region::Ray, 11, 12, 5),
        node(Region::Ray, 1, 12, 0),
        node(Region::Ray, 1, 4, 1),
        node(Region::Ray, 5, 12, 2),
        node(Region::Ray, 7, 12, 3),
        node(Region::Ray, 3, 4, 4),
        node(Region::Outer, 5, 6, 5),
        node(Region::Outer, 0, 1, 0),
        node(Region::Outer, 1, 6, 1),
        node(Region::Outer, 1, 3, 2),
        node(Region::Outer, 1, 2, 3),
        node(Region::Outer, 2, 3, 4),
    ]
}

#[test]
fn nineteen_nodes_in_fixed_order() {
    let nodes = build_nodes();
    assert_eq!(nodes.len(), 19);
    assert_eq!(nodes.as_slice(), &expected()[..]);
}

#[test]
fn regions_come_in_rings() {
    let nodes = build_nodes();
    assert_eq!(nodes[0].region, Region::Center);
    assert!(nodes[1..7].iter().all(|n| n.region == Region::Inner));
    assert!(nodes[7..13].iter().all(|n| n.region == Region::Ray));
    assert!(nodes[13..19].iter().all(|n| n.region == Region::Outer));
}

#[test]
fn angles_are_the_documented_twelfths() {
    let nodes = build_nodes();
    let order = [5i16, 0, 1, 2, 3, 4];
    assert_eq!(nodes[0].angle.numer * 12, 0);
    for n in 0..6usize {
        let a = nodes[1 + n].angle;
        assert_eq!(a.numer * 12, (n as i16 * 2) * a.denom);
        assert_eq!(nodes[1 + n].idx, n as i16);
        let a = nodes[7 + n].angle;
        assert_eq!(a.numer * 12, (order[n] * 2 + 1) * a.denom);
        assert_eq!(nodes[7 + n].idx, order[n]);
        let a = nodes[13 + n].angle;
        assert_eq!(a.numer * 12, (order[n] * 2) * a.denom);
        assert_eq!(nodes[13 + n].idx, order[n]);
    }
}

fn common_divisor(a: i16, b: i16) -> i16 {
    if b == 0 {
        a
    } else {
        common_divisor(b, a % b)
    }
}

#[test]
fn angles_are_in_lowest_terms_and_less_than_a_turn() {
    for n in build_nodes().iter() {
        assert!(n.angle.denom > 0);
        assert!(0 <= n.angle.numer && n.angle.numer < n.angle.denom);
        assert_eq!(common_divisor(n.angle.numer, n.angle.denom), 1);
    }
}

#[test]
fn building_twice_gives_the_same_nodes() {
    assert_eq!(build_nodes().as_slice(), build_nodes().as_slice());
    assert_eq!(Topology::new().nodes().as_slice(), Topology::new().nodes().as_slice());
}

#[test]
fn topology_holds_the_built_nodes() {
    let t = Topology::new();
    assert_eq!(t.len(), 19);
    assert_eq!(t.nodes().as_slice(), build_nodes().as_slice());
    let want = expected();
    for i in 0..19 {
        assert_eq!(*t.node(i), want[i]);
    }
}

#[test]
fn region_numbers() {
    assert_eq!(Region::Center.r(), 0);
    assert_eq!(Region::Inner.r(), 1);
    assert_eq!(Region::Ray.r(), 2);
    assert_eq!(Region::Outer.r(), 3);
}
