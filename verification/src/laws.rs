//! General laws of the simulation, stated and proved over the same spec
//! functions that the executable functions' contracts use.

use vstd::prelude::*;

use crate::board::{in_bounds, step_eats, step_survives, Board};
use crate::game::{advanced, grown, hits_self, moved_pos, Directions, Pos};

verus! {

/// A single-segment snake stepped in any direction whose destination lies on
/// the grid keeps length one, survives the step, and its head moves exactly
/// one unit along the direction's axis while the other axis is untouched.
pub proof fn lemma_step_single_segment(b: Board, d: Directions)
    requires
        b.wf(),
        b.alive,
        b.snake@.len() == 1,
        in_bounds(moved_pos(b.snake@[0], d), b.size),
    ensures
        advanced(b.snake@, d).len() == 1,
        advanced(b.snake@, d)[0] == moved_pos(b.snake@[0], d),
        step_survives(b, d),
        d == Directions::UP ==> advanced(b.snake@, d)[0].x == b.snake@[0].x && advanced(
            b.snake@,
            d,
        )[0].y == b.snake@[0].y - 1,
        d == Directions::DOWN ==> advanced(b.snake@, d)[0].x == b.snake@[0].x && advanced(
            b.snake@,
            d,
        )[0].y == b.snake@[0].y + 1,
        d == Directions::LEFT ==> advanced(b.snake@, d)[0].x == b.snake@[0].x - 1 && advanced(
            b.snake@,
            d,
        )[0].y == b.snake@[0].y,
        d == Directions::RIGHT ==> advanced(b.snake@, d)[0].x == b.snake@[0].x + 1 && advanced(
            b.snake@,
            d,
        )[0].y == b.snake@[0].y,
{
    assert(!hits_self(advanced(b.snake@, d)));
}

/// Follow-the-leader: after an advance, each non-head segment holds exactly
/// the position its predecessor held before the advance, and the chain's
/// length is unchanged.
pub proof fn lemma_advance_follows_leader(s: Seq<Pos>, d: Directions, i: int)
    requires
        s.len() >= 1,
        1 <= i < s.len(),
    ensures
        advanced(s, d).len() == s.len(),
        advanced(s, d)[i] == s[i - 1],
{
}

/// Growth adds exactly one segment: the new tail is colocated with the old
/// tail, and every existing segment keeps its position.
pub proof fn lemma_growth(s: Seq<Pos>)
    requires
        s.len() >= 1,
    ensures
        grown(s).len() == s.len() + 1,
        forall|i: int| 0 <= i < s.len() ==> grown(s)[i] == s[i],
        grown(s)[s.len() as int] == s[s.len() - 1],
{
}

/// One tick never shrinks the snake: the chain's length rises by exactly one
/// on a tick that eats the fruit and stays the same on every other tick.
pub proof fn lemma_step_length(b: Board, d: Directions)
    requires
        b.wf(),
        b.alive,
    ensures
        step_eats(b, d) ==> grown(advanced(b.snake@, d)).len() == b.snake@.len() + 1,
        !step_eats(b, d) ==> advanced(b.snake@, d).len() == b.snake@.len(),
{
}

/// A snake whose head sits at column zero dies on a step to the left: the
/// destination column is -1, outside the grid.
pub proof fn lemma_left_wall_death(b: Board, d: Directions)
    requires
        b.wf(),
        b.alive,
        b.snake@[0].x == 0,
        d == Directions::LEFT,
    ensures
        advanced(b.snake@, d)[0].x == -1,
        !in_bounds(advanced(b.snake@, d)[0], b.size),
        !step_survives(b, d),
{
}

} // verus!
