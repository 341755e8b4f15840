//! The flower's nineteen nodes, the interface of an animation, and the
//! generator that walks the nodes once per frame.

use crate::hsv::HSV;
use crate::knob::Direction;
use crate::ratio::{gcd, lemma_lowest_terms, lowest_terms, magnitude, ratio_new};
use crate::text::{byte_len, lines_new, lines_of};
use vstd::prelude::*;

verus! {

/// `heapless::Vec`, a vector of fixed capacity `N` that lives inline.
#[verifier::external_type_specification]
#[verifier::external_body]
#[verifier::reject_recursive_types(T)]
pub struct ExHeaplessVec<T, const N: usize>(heapless::Vec<T, N>);

/// The ring of the flower that a node belongs to.
#[derive(Clone, Copy, Debug, PartialEq, Eq, Structural)]
pub enum Region {
    Center,
    Inner,
    Ray,
    Outer,
}

impl Region {
    /// The ring's number, counted outwards from the centre.
    pub open spec fn index(&self) -> int {
        match self {
            Region::Center => 0,
            Region::Inner => 1,
            Region::Ray => 2,
            Region::Outer => 3,
        }
    }

    /// The ring's number, counted outwards from the centre.
    pub fn r(&self) -> (i: usize)
        ensures
            i == self.index(),
    {
        match self {
            Region::Center => 0,
            Region::Inner => 1,
            Region::Ray => 2,
            Region::Outer => 3,
        }
    }
}

/// A fraction of a full turn, as numerator over denominator.
#[derive(Clone, Copy, Debug, PartialEq, Eq, Structural)]
pub struct Angle {
    pub numer: i16,
    pub denom: i16,
}

impl Angle {
    /// The angle is at least zero and less than a full turn.
    pub open spec fn wf(&self) -> bool {
        0 <= self.numer < self.denom
    }
}

/// One light position of the flower.
#[derive(Clone, Copy, Debug, PartialEq, Eq, Structural)]
pub struct Node {
    pub region: Region,
    pub angle: Angle,
    pub idx: i16,
}

impl Node {
    /// The node's angle is at least zero and less than a full turn.
    pub open spec fn wf(&self) -> bool {
        self.angle.wf()
    }
}

/// The node of a ring that stands at `numer / denom` of a turn.
pub open spec fn placed(region: Region, numer: i16, denom: i16, idx: i16) -> Node {
    Node { region, angle: Angle { numer, denom }, idx }
}

/// `k` twelfths of a turn, in lowest terms.
pub open spec fn twelfths(k: int) -> Angle {
    let r = lowest_terms(k, 12);
    Angle { numer: r.0 as i16, denom: r.1 as i16 }
}

/// The petal that stands at place `k` of the ray and outer rings, which both
/// start with the last petal: 5, 0, 1, 2, 3, 4.
pub open spec fn petal(k: int) -> int {
    (k + 5) % 6
}

/// The node at place `i` of the flower: the centre, then six inner nodes on
/// the even twelfths, then six rays on the odd twelfths, then six outer nodes on
/// the even twelfths again.
pub open spec fn layout_node(i: int) -> Node {
    if i == 0 {
        Node { region: Region::Center, angle: twelfths(0), idx: 0 }
    } else if i < 7 {
        Node { region: Region::Inner, angle: twelfths(2 * (i - 1)), idx: (i - 1) as i16 }
    } else if i < 13 {
        Node {
            region: Region::Ray,
            angle: twelfths(2 * petal(i - 7) + 1),
            idx: petal(i - 7) as i16,
        }
    } else {
        Node {
            region: Region::Outer,
            angle: twelfths(2 * petal(i - 13)),
            idx: petal(i - 13) as i16,
        }
    }
}

/// The flower: its nineteen nodes in the order in which they are lit.
pub open spec fn layout() -> Seq<Node> {
    Seq::new(19, |i: int| layout_node(i))
}

/// What a vector of nodes holds, first to last.
pub uninterp spec fn node_seq(v: heapless::Vec<Node, 19>) -> Seq<Node>;

/// `heapless::Vec::new`: an empty vector.
#[verifier::external_body]
fn nodes_new() -> (v: heapless::Vec<Node, 19>)
    ensures
        node_seq(v) == Seq::<Node>::empty(),
{
    heapless::Vec::new()
}

/// `heapless::Vec::push`: appends the node if fewer than 19 are held, and hands
/// it back, leaving the vector as it was, if the vector is full.
#[verifier::external_body]
fn nodes_push(v: &mut heapless::Vec<Node, 19>, node: Node) -> (r: Result<(), Node>)
    ensures
        r is Ok <==> node_seq(*old(v)).len() < 19,
        r is Ok ==> node_seq(*final(v)) == node_seq(*old(v)).push(node),
        r matches Err(back) ==> back == node && node_seq(*final(v)) == node_seq(*old(v)),
{
    v.push(node)
}

/// `heapless::Vec::as_slice`: the nodes held, as a slice.
#[verifier::external_body]
fn nodes_as_slice(v: &heapless::Vec<Node, 19>) -> (s: &[Node])
    ensures
        s@ == node_seq(*v),
{
    v.as_slice()
}

/// `k` twelfths of a turn, reduced to lowest terms.
fn turn_twelfths(k: i16) -> (a: Angle)
    requires
        0 <= k < 12,
    ensures
        a == twelfths(k as int),
        a.wf(),
{
    let r: (i64, i64) = ratio_new(k as i64, 12);
    proof {
        lemma_lowest_terms(k as int, 12);
    }
    Angle { numer: r.0 as i16, denom: r.1 as i16 }
}

/// Builds the flower's nodes in their fixed order.
pub fn build_nodes() -> (v: heapless::Vec<Node, 19>)
    ensures
        node_seq(v) == layout(),
{
    let mut v: heapless::Vec<Node, 19> = nodes_new();
    let center: Node = Node { region: Region::Center, angle: turn_twelfths(0), idx: 0 };
    let _ = nodes_push(&mut v, center);
    let mut n: i16 = 0;
    while n < 6
        invariant
            0 <= n <= 6,
            node_seq(v).len() == 1 + n,
            forall|i: int| 0 <= i < 1 + n ==> node_seq(v)[i] == layout_node(i),
        decreases 6 - n,
    {
        let node: Node = Node { region: Region::Inner, angle: turn_twelfths(n * 2), idx: n };
        let _ = nodes_push(&mut v, node);
        n += 1;
    }
    let order: [i16; 6] = [5, 0, 1, 2, 3, 4];
    let mut k: usize = 0;
    while k < 6
        invariant
            0 <= k <= 6,
            order@ == seq![5i16, 0i16, 1i16, 2i16, 3i16, 4i16],
            node_seq(v).len() == 7 + k,
            forall|i: int| 0 <= i < 7 + k ==> node_seq(v)[i] == layout_node(i),
        decreases 6 - k,
    {
        let n: i16 = order[k];
        let node: Node = Node { region: Region::Ray, angle: turn_twelfths(n * 2 + 1), idx: n };
        let _ = nodes_push(&mut v, node);
        k += 1;
    }
    let mut k: usize = 0;
    while k < 6
        invariant
            0 <= k <= 6,
            order@ == seq![5i16, 0i16, 1i16, 2i16, 3i16, 4i16],
            node_seq(v).len() == 13 + k,
            forall|i: int| 0 <= i < 13 + k ==> node_seq(v)[i] == layout_node(i),
        decreases 6 - k,
    {
        let n: i16 = order[k];
        let node: Node = Node { region: Region::Outer, angle: turn_twelfths(n * 2), idx: n };
        let _ = nodes_push(&mut v, node);
        k += 1;
    }
    v
}

/// The flower's nodes, built once and then only read.
pub struct Topology {
    nodes: heapless::Vec<Node, 19>,
}

impl Topology {
    #[verifier::type_invariant]
    spec fn holds_the_layout(self) -> bool {
        node_seq(self.nodes) == layout()
    }

    /// The nodes, first to last.
    pub closed spec fn view(&self) -> Seq<Node> {
        node_seq(self.nodes)
    }

    /// Builds the flower.
    pub fn new() -> (t: Self)
        ensures
            t@ == layout(),
    {
        Topology { nodes: build_nodes() }
    }

    /// The nodes in the order in which they are lit.
    pub fn nodes(&self) -> (v: &heapless::Vec<Node, 19>)
        ensures
            node_seq(*v) == layout(),
            self@ == layout(),
    {
        proof {
            use_type_invariant(self);
        }
        &self.nodes
    }

    /// The number of nodes.
    pub fn len(&self) -> (n: usize)
        ensures
            n == 19,
            self@ == layout(),
    {
        proof {
            use_type_invariant(self);
        }
        nodes_as_slice(&self.nodes).len()
    }

    /// The node at place `i`.
    pub fn node(&self, i: usize) -> (n: &Node)
        requires
            i < 19,
        ensures
            *n == layout_node(i as int),
            n.wf(),
    {
        proof {
            use_type_invariant(self);
            lemma_layout_wf(i as int);
        }
        &nodes_as_slice(&self.nodes)[i]
    }
}

/// Every node of the flower has an angle of at least zero and less than a
/// full turn.
pub proof fn lemma_layout_wf(i: int)
    requires
        0 <= i < 19,
    ensures
        layout().len() == 19,
        layout()[i] == layout_node(i),
        layout()[i].wf(),
{
    let k = if i == 0 {
        0
    } else if i < 7 {
        2 * (i - 1)
    } else if i < 13 {
        2 * petal(i - 7) + 1
    } else {
        2 * petal(i - 13)
    };
    lemma_lowest_terms(k, 12);
}

/// The flower written out: the centre at angle 0, the inner ring at 0, 1/6,
/// 1/3, 1/2, 2/3, 5/6, the rays at 11/12, 1/12, 1/4, 5/12, 7/12, 3/4, and the
/// outer ring at 5/6, 0, 1/6, 1/3, 1/2, 2/3.
#[verifier::rlimit(50)]
pub proof fn lemma_layout_angles()
    ensures
        layout().len() == 19,
        layout()[0] == placed(Region::Center, 0, 1, 0),
        layout()[1] == placed(Region::Inner, 0, 1, 0),
        layout()[2] == placed(Region::Inner, 1, 6, 1),
        layout()[3] == placed(Region::Inner, 1, 3, 2),
        layout()[4] == placed(Region::Inner, 1, 2, 3),
        layout()[5] == placed(Region::Inner, 2, 3, 4),
        layout()[6] == placed(Region::Inner, 5, 6, 5),
        layout()[7] == placed(Region::Ray, 11, 12, 5),
        layout()[8] == placed(Region::Ray, 1, 12, 0),
        layout()[9] == placed(Region::Ray, 1, 4, 1),
        layout()[10] == placed(Region::Ray, 5, 12, 2),
        layout()[11] == placed(Region::Ray, 7, 12, 3),
        layout()[12] == placed(Region::Ray, 3, 4, 4),
        layout()[13] == placed(Region::Outer, 5, 6, 5),
        layout()[14] == placed(Region::Outer, 0, 1, 0),
        layout()[15] == placed(Region::Outer, 1, 6, 1),
        layout()[16] == placed(Region::Outer, 1, 3, 2),
        layout()[17] == placed(Region::Outer, 1, 2, 3),
        layout()[18] == placed(Region::Outer, 2, 3, 4),
{
    lemma_twelfths();
    assert(petal(0) == 5 && petal(1) == 0 && petal(2) == 1 && petal(3) == 2 && petal(4) == 3
        && petal(5) == 4);
    assert(layout()[0] == layout_node(0) && layout()[1] == layout_node(1) && layout()[2]
        == layout_node(2) && layout()[3] == layout_node(3) && layout()[4] == layout_node(4)
        && layout()[5] == layout_node(5) && layout()[6] == layout_node(6));
    assert(layout()[7] == layout_node(7) && layout()[8] == layout_node(8) && layout()[9]
        == layout_node(9) && layout()[10] == layout_node(10) && layout()[11] == layout_node(11)
        && layout()[12] == layout_node(12));
    assert(layout()[13] == layout_node(13) && layout()[14] == layout_node(14) && layout()[15]
        == layout_node(15) && layout()[16] == layout_node(16) && layout()[17] == layout_node(17)
        && layout()[18] == layout_node(18));
}

/// The twelfths of a turn in lowest terms.
pub proof fn lemma_twelfths()
    ensures
        twelfths(0) == (Angle { numer: 0, denom: 1 }),
        twelfths(1) == (Angle { numer: 1, denom: 12 }),
        twelfths(2) == (Angle { numer: 1, denom: 6 }),
        twelfths(3) == (Angle { numer: 1, denom: 4 }),
        twelfths(4) == (Angle { numer: 1, denom: 3 }),
        twelfths(5) == (Angle { numer: 5, denom: 12 }),
        twelfths(6) == (Angle { numer: 1, denom: 2 }),
        twelfths(7) == (Angle { numer: 7, denom: 12 }),
        twelfths(8) == (Angle { numer: 2, denom: 3 }),
        twelfths(9) == (Angle { numer: 3, denom: 4 }),
        twelfths(10) == (Angle { numer: 5, denom: 6 }),
        twelfths(11) == (Angle { numer: 11, denom: 12 }),
{
    reveal_with_fuel(gcd, 6);
    assert(magnitude(0) == 0 && magnitude(1) == 1 && magnitude(2) == 2 && magnitude(3) == 3);
    assert(magnitude(4) == 4 && magnitude(5) == 5 && magnitude(6) == 6 && magnitude(7) == 7);
    assert(magnitude(8) == 8 && magnitude(9) == 9 && magnitude(10) == 10 && magnitude(11) == 11);
    assert(gcd(0, 12) == 12 && gcd(1, 12) == 1 && gcd(2, 12) == 2 && gcd(3, 12) == 3);
    assert(gcd(4, 12) == 4 && gcd(5, 12) == 1 && gcd(6, 12) == 6 && gcd(7, 12) == 1);
    assert(gcd(8, 12) == 4 && gcd(9, 12) == 3 && gcd(10, 12) == 2 && gcd(11, 12) == 1);
}

/// An animation: it colours each node from its present state, moves on by one
/// frame at a tick, and lets two knobs change its settings.
pub trait Render: Sized {
    /// The two colours that the animation gives a node in its present state:
    /// what `render` returns, as a function of the state and the node alone.
    spec fn colors(&self, n: Node) -> (HSV, HSV);

    /// Colours the twin lights of a node. The state stays as it is.
    fn render(&self, n: &Node) -> (pair: (HSV, HSV))
        requires
            n.wf(),
        ensures
            pair == self.colors(*n),
            pair.0.wf(),
            pair.1.wf(),
    ;

    /// Moves the animation on by one frame.
    fn tick(&mut self)
        default_ensures
            *final(self) == *old(self),
    {
    }

    /// A few short lines that describe the present settings: at most 8 lines
    /// of at most 16 bytes each.
    fn debug(&self) -> (lines: heapless::Vec<heapless::String<16>, 8>)
        ensures
            lines_of(lines).len() <= 8,
            forall|i: int|
                0 <= i < lines_of(lines).len() ==> byte_len(#[trigger] lines_of(lines)[i]) <= 16,
        default_ensures
            lines_of(lines) == Seq::<Seq<char>>::empty(),
    {
        lines_new()
    }

    /// Applies one step of the first knob.
    fn knob1(&mut self, dir: Direction)
        default_ensures
            *final(self) == *old(self),
    {
        let _ = dir;
    }

    /// Applies one step of the second knob.
    fn knob2(&mut self, dir: Direction)
        default_ensures
            *final(self) == *old(self),
    {
        let _ = dir;
    }
}

/// The colour at place `k` of the frame that an animation draws: the nodes'
/// pairs one after the other, each pair's first colour before its second.
pub open spec fn frame_color<R: Render>(r: &R, k: int) -> HSV {
    let pair = r.colors(layout_node(k / 2));
    if k % 2 == 0 {
        pair.0
    } else {
        pair.1
    }
}

/// The frame that an animation draws in its present state: 38 colours, two
/// for each node of the flower.
pub open spec fn frame<R: Render>(r: &R) -> Seq<HSV> {
    Seq::new(38, |k: int| frame_color(r, k))
}

/// Hands out the colours of one frame, one at a time. It walks the flower's
/// nodes once and asks the animation for each node's pair only when the pair's
/// first colour is due.
pub struct Generator<'a, R: Render> {
    idx: usize,
    carry: Option<HSV>,
    r: &'a R,
    nodes: &'a Topology,
}

impl<'a, R: Render> Generator<'a, R> {
    #[verifier::type_invariant]
    spec fn carries_the_second_of_a_pair(self) -> bool {
        &&& self.idx <= 19
        &&& self.carry matches Some(c) ==> self.idx > 0 && c.wf() && c == self.r.colors(
            layout_node(self.idx - 1),
        ).1
    }

    /// The animation that the frame is drawn from.
    pub closed spec fn strategy(&self) -> &'a R {
        self.r
    }

    /// The number of colours handed out so far.
    pub closed spec fn produced(&self) -> int {
        if self.carry is Some {
            2 * self.idx - 1
        } else {
            2 * self.idx
        }
    }

    /// A generator at the start of a frame.
    pub fn new(nodes: &'a Topology, r: &'a R) -> (g: Self)
        ensures
            g.strategy() == r,
            g.produced() == 0,
    {
        Generator { idx: 0, carry: None, r, nodes }
    }

    /// The next colour of the frame, or `None` once all 38 have been handed
    /// out. An exhausted generator stays exhausted.
    pub fn next(&mut self) -> (color: Option<HSV>)
        ensures
            final(self).strategy() == old(self).strategy(),
            0 <= old(self).produced() <= 38,
            old(self).produced() < 38 ==> color == Some(
                frame(old(self).strategy())[old(self).produced()],
            ) && final(self).produced() == old(self).produced() + 1,
            old(self).produced() == 38 ==> color is None && final(self).produced() == 38,
            color matches Some(c) ==> c.wf(),
    {
        proof {
            use_type_invariant(&*self);
        }
        if self.carry.is_some() {
            let carry: Option<HSV> = self.carry;
            self.carry = None;
            return carry;
        }
        if self.idx >= self.nodes.len() {
            return None;
        }
        let (first, second): (HSV, HSV) = self.r.render(self.nodes.node(self.idx));
        self.idx += 1;
        self.carry = Some(second);
        Some(first)
    }

    /// All the colours that are still to come, in order. The generator is
    /// exhausted afterwards.
    pub fn rest(&mut self) -> (colors: Vec<HSV>)
        ensures
            final(self).strategy() == old(self).strategy(),
            final(self).produced() == 38,
            0 <= old(self).produced() <= 38,
            colors@ == frame(old(self).strategy()).subrange(old(self).produced(), 38),
    {
        let mut colors: Vec<HSV> = Vec::new();
        let ghost start = self.produced();
        proof {
            use_type_invariant(&*self);
        }
        loop
            invariant
                self.strategy() == old(self).strategy(),
                start == old(self).produced(),
                0 <= start <= self.produced() <= 38,
                colors@ == frame(self.strategy()).subrange(start, self.produced()),
            ensures
                self.strategy() == old(self).strategy(),
                self.produced() == 38,
                colors@ == frame(self.strategy()).subrange(start, 38),
            decreases 38 - self.produced(),
        {
            let ghost before = self.produced();
            match self.next() {
                Some(c) => {
                    colors.push(c);
                    assert(frame(self.strategy()).subrange(start, before).push(c) =~= frame(
                        self.strategy(),
                    ).subrange(start, before + 1));
                },
                None => {
                    break ;
                },
            }
        }
        colors
    }
}

/// A frame has 38 colours: the colours of node `i` stand at places `2 i` and
/// `2 i + 1`.
pub proof fn lemma_frame_pairs<R: Render>(r: &R, i: int)
    requires
        0 <= i < 19,
    ensures
        frame(r).len() == 38,
        frame(r)[2 * i] == r.colors(layout()[i]).0,
        frame(r)[2 * i + 1] == r.colors(layout()[i]).1,
{
}

} // verus!
