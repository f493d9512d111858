//! The snake itself: positions, directions, and the body segment chain.
//!
//! The chain is an ordered sequence of grid positions, head first. Movement
//! is follow-the-leader: every non-head segment takes the position its
//! predecessor held before the step, then the head moves one unit.

use vstd::prelude::*;

verus! {

/// A cell on the grid: `x` is the column, `y` is the row.
#[derive(Clone, Copy, PartialEq, Eq, Structural, Debug)]
pub struct Pos {
    pub x: i32,
    pub y: i32,
}

/// One of the four movement directions; no diagonals.
#[derive(Clone, Copy, PartialEq, Eq, Structural, Debug)]
pub enum Directions {
    UP,
    DOWN,
    LEFT,
    RIGHT,
}

/// The position one unit away from `p` in direction `d`: up and down change
/// the row, left and right change the column.
pub open spec fn moved_pos(p: Pos, d: Directions) -> Pos {
    match d {
        Directions::UP => Pos { x: p.x, y: (p.y - 1) as i32 },
        Directions::DOWN => Pos { x: p.x, y: (p.y + 1) as i32 },
        Directions::LEFT => Pos { x: (p.x - 1) as i32, y: p.y },
        Directions::RIGHT => Pos { x: (p.x + 1) as i32, y: p.y },
    }
}

/// The chain after one movement step in direction `d`: the head moves one
/// unit, and each other segment takes its predecessor's old position.
pub open spec fn advanced(s: Seq<Pos>, d: Directions) -> Seq<Pos>
    recommends
        s.len() >= 1,
{
    seq![moved_pos(s[0], d)] + s.drop_last()
}

/// The chain after growing: one new tail segment, colocated with the old tail.
pub open spec fn grown(s: Seq<Pos>) -> Seq<Pos>
    recommends
        s.len() >= 1,
{
    s.push(s.last())
}

/// Whether some segment other than the head occupies the head's position.
pub open spec fn hits_self(s: Seq<Pos>) -> bool {
    exists|i: int| 1 <= i < s.len() && (#[trigger] s[i]) == s[0]
}

/// The snake: its segments, head first. The chain is never empty once built.
pub struct Snake {
    pub segs: Vec<Pos>,
}

impl View for Snake {
    type V = Seq<Pos>;

    open spec fn view(&self) -> Seq<Pos> {
        self.segs@
    }
}

impl Snake {
    /// A well-formed chain has at least a head.
    pub open spec fn wf(&self) -> bool {
        self@.len() >= 1
    }

    /// A single-segment snake at the given cell.
    pub fn new(x: i32, y: i32) -> (s: Snake)
        ensures
            s@ == seq![Pos { x, y }],
    {
        let mut segs: Vec<Pos> = Vec::new();
        segs.push(Pos { x, y });
        let s = Snake { segs };
        proof {
            assert(s@ =~= seq![Pos { x, y }]);
        }
        s
    }

    /// Grows the chain by one segment at the tail, colocated with the old
    /// tail; every existing segment keeps its position. On an empty chain it
    /// does nothing.
    pub fn eat_fruit(&mut self)
        ensures
            old(self)@.len() == 0 ==> final(self)@ == old(self)@,
            old(self)@.len() >= 1 ==> final(self)@ == grown(old(self)@),
    {
        let n = self.segs.len();
        if n >= 1 {
            let last = self.segs[n - 1];
            self.segs.push(last);
        }
    }

    /// Copies each segment's position onto its successor, tail to head, so
    /// that every non-head segment ends at its predecessor's old position.
    /// The head itself does not move.
    pub fn move_body(&mut self)
        ensures
            final(self)@.len() == old(self)@.len(),
            old(self)@.len() >= 1 ==> final(self)@[0] == old(self)@[0],
            forall|j: int| 1 <= j < old(self)@.len() ==> final(self)@[j] == old(self)@[j - 1],
    {
        let ghost orig: Seq<Pos> = self.segs@;
        let n: usize = self.segs.len();
        let mut i: usize = n;
        while i > 1
            invariant
                i <= n,
                1 <= i || n == 0,
                n == self.segs@.len(),
                n == orig.len(),
                forall|j: int| 0 <= j < i ==> self.segs@[j] == orig[j],
                forall|j: int| i <= j < n ==> self.segs@[j] == orig[j - 1],
            decreases i,
        {
            i = i - 1;
            let p = self.segs[i - 1];
            self.segs[i] = p;
        }
    }

    /// One movement step: the body follows the leader, then the head moves
    /// one unit in `direction`.
    pub fn move_direction(&mut self, direction: Directions)
        requires
            old(self).wf(),
            i32::MIN < old(self)@[0].x < i32::MAX,
            i32::MIN < old(self)@[0].y < i32::MAX,
        ensures
            final(self)@ == advanced(old(self)@, direction),
    {
        let ghost orig: Seq<Pos> = self.segs@;
        self.move_body();
        let h = self.segs[0];
        let nh = match direction {
            Directions::UP => Pos { x: h.x, y: h.y - 1 },
            Directions::DOWN => Pos { x: h.x, y: h.y + 1 },
            Directions::LEFT => Pos { x: h.x - 1, y: h.y },
            Directions::RIGHT => Pos { x: h.x + 1, y: h.y },
        };
        self.segs[0] = nh;
        proof {
            assert(self.segs@ =~= advanced(orig, direction));
        }
    }

    /// Whether any segment other than the head sits at `(head_x, head_y)`.
    /// A single-segment snake has no body, so the answer is then false.
    pub fn did_self_collide(&self, head_x: i32, head_y: i32) -> (r: bool)
        ensures
            r == exists|i: int|
                1 <= i < self@.len() && (#[trigger] self@[i]) == (Pos { x: head_x, y: head_y }),
    {
        let n: usize = self.segs.len();
        let mut i: usize = 1;
        while i < n
            invariant
                1 <= i,
                i <= n || n < 1,
                n == self.segs@.len(),
                forall|j: int| 1 <= j < i ==> (#[trigger] self.segs@[j]) != (Pos {
                    x: head_x,
                    y: head_y,
                }),
            decreases n - i,
        {
            let p = self.segs[i];
            if p.x == head_x && p.y == head_y {
                proof {
                    assert(1 <= (i as int) && (i as int) < self@.len());
                    assert(self@[i as int] == (Pos { x: head_x, y: head_y }));
                }
                return true;
            }
            i = i + 1;
        }
        false
    }
}

} // verus!
