//! The game board: grid size, fruit, score, liveness, and the one-tick
//! update rule.
//!
//! A board is created once per session with the snake at the grid center and
//! a randomly placed fruit. Each tick advances the snake in the requested
//! direction, then checks self-collision, then wall bounds, then fruit
//! consumption; death is terminal for the board instance.

use vstd::prelude::*;

use crate::game::{advanced, grown, hits_self, Directions, Pos, Snake};

verus! {

/// A key press as the simulation cares about it: one of the four arrows,
/// the escape key, or anything else.
#[derive(Clone, Copy, PartialEq, Eq, Structural, Debug)]
pub enum KeyInput {
    UpArrow,
    DownArrow,
    LeftArrow,
    RightArrow,
    Escape,
    Other,
}

/// The direction a key press selects: an arrow key picks its direction,
/// every other key keeps the current one.
pub open spec fn direction_for(key: KeyInput, current: Directions) -> Directions {
    match key {
        KeyInput::UpArrow => Directions::UP,
        KeyInput::DownArrow => Directions::DOWN,
        KeyInput::LeftArrow => Directions::LEFT,
        KeyInput::RightArrow => Directions::RIGHT,
        KeyInput::Escape => current,
        KeyInput::Other => current,
    }
}

/// Whether `p` lies on a square board of the given side length.
pub open spec fn in_bounds(p: Pos, size: i32) -> bool {
    0 <= p.x < size && 0 <= p.y < size
}

/// The whole game state for one session.
pub struct Board {
    /// Side length of the square grid.
    pub size: i32,
    /// Where the fruit currently sits.
    pub fruit_pos: Pos,
    /// Fruits eaten so far; never decreases.
    pub score: i32,
    /// False once the snake has hit a wall or itself; then terminal.
    pub alive: bool,
    /// The direction the next step will use unless the player turns.
    pub direction: Directions,
    /// The body segment chain.
    pub snake: Snake,
}

/// Whether the snake survives a step of `b` in direction `d`: the advanced
/// head neither lands on a body segment nor leaves the grid.
pub open spec fn step_survives(b: Board, d: Directions) -> bool {
    &&& !hits_self(advanced(b.snake@, d))
    &&& in_bounds(advanced(b.snake@, d)[0], b.size)
}

/// Whether a step of `b` in direction `d` eats the fruit: the snake survives
/// the step and the new head lands on the fruit cell.
pub open spec fn step_eats(b: Board, d: Directions) -> bool {
    step_survives(b, d) && advanced(b.snake@, d)[0] == b.fruit_pos
}

/// Relies on rand::random: a sample of rand's Standard distribution of the
/// type. The value depends on a thread-local generator, so nothing is
/// promised of it.
pub assume_specification<T>[ rand::random::<T> ]() -> (r: T)
    where
        rand::distributions::Standard: rand::distributions::Distribution<T>,
;

/// Draws one value below `size`, uniformly up to the bias of reducing a
/// machine word modulo `size`.
fn rand_index(size: i32) -> (r: i32)
    requires
        1 <= size,
    ensures
        0 <= r < size,
{
    let raw: u32 = rand::random();
    (raw % (size as u32)) as i32
}

impl Board {
    /// A board is well formed when its side length leaves room for arithmetic
    /// on neighbouring cells, the chain has a head, the fruit is on the grid,
    /// and, while the snake lives, every segment is on the grid.
    pub open spec fn wf(&self) -> bool {
        &&& 1 <= self.size < i32::MAX
        &&& self.snake@.len() >= 1
        &&& in_bounds(self.fruit_pos, self.size)
        &&& (self.alive ==> forall|i: int|
            0 <= i < self.snake@.len() ==> in_bounds(#[trigger] self.snake@[i], self.size))
    }

    /// A fresh session: a single-segment snake at the grid center, heading
    /// right, score zero, and a fruit somewhere on the grid.
    pub fn new(size: i32) -> (b: Board)
        requires
            1 <= size < i32::MAX,
        ensures
            b.wf(),
            b.size == size,
            b.score == 0,
            b.alive,
            b.direction == Directions::RIGHT,
            b.snake@.len() == 1,
            b.snake@[0].x == size / 2,
            b.snake@[0].y == size / 2,
            in_bounds(b.fruit_pos, size),
    {
        let fx = rand_index(size);
        let fy = rand_index(size);
        let b = Board {
            size,
            score: 0,
            fruit_pos: Pos { x: fx, y: fy },
            alive: true,
            direction: Directions::RIGHT,
            snake: Snake::new(size / 2, size / 2),
        };
        b
    }

    /// Moves the fruit to a fresh random cell on the grid. The new cell is
    /// not guaranteed to avoid the snake body, nor to differ from the old
    /// cell; nothing else changes.
    fn spawn_fruit(&mut self)
        requires
            1 <= old(self).size,
        ensures
            in_bounds(final(self).fruit_pos, old(self).size),
            final(self).size == old(self).size,
            final(self).score == old(self).score,
            final(self).alive == old(self).alive,
            final(self).direction == old(self).direction,
            final(self).snake == old(self).snake,
    {
        let fx = rand_index(self.size);
        let fy = rand_index(self.size);
        self.fruit_pos = Pos { x: fx, y: fy };
    }

    /// Records what a key press asks for: an arrow key sets the direction of
    /// the next step, escape requests a quit (returned as true), and any
    /// other key does nothing.
    pub fn detect_input(&mut self, key: KeyInput) -> (quit: bool)
        ensures
            quit == (key == KeyInput::Escape),
            final(self).direction == direction_for(key, old(self).direction),
            final(self).size == old(self).size,
            final(self).fruit_pos == old(self).fruit_pos,
            final(self).score == old(self).score,
            final(self).alive == old(self).alive,
            final(self).snake == old(self).snake,
    {
        match key {
            KeyInput::UpArrow => {
                self.direction = Directions::UP;
                false
            },
            KeyInput::DownArrow => {
                self.direction = Directions::DOWN;
                false
            },
            KeyInput::LeftArrow => {
                self.direction = Directions::LEFT;
                false
            },
            KeyInput::RightArrow => {
                self.direction = Directions::RIGHT;
                false
            },
            KeyInput::Escape => true,
            KeyInput::Other => false,
        }
    }

    /// One simulation tick. On a dead board nothing changes. On a live board
    /// the chain advances in `direction`; the snake dies if the new head
    /// lands on a body segment or off the grid; otherwise, if it lands on the
    /// fruit, the chain grows by one, the score rises by one, and the fruit
    /// moves to a random grid cell.
    pub fn move_snake(&mut self, direction: Directions)
        requires
            old(self).wf(),
            old(self).score < i32::MAX,
        ensures
            final(self).wf(),
            final(self).size == old(self).size,
            final(self).direction == old(self).direction,
            !old(self).alive ==> *final(self) == *old(self),
            old(self).alive ==> final(self).snake@ == (if step_eats(*old(self), direction) {
                grown(advanced(old(self).snake@, direction))
            } else {
                advanced(old(self).snake@, direction)
            }),
            old(self).alive ==> final(self).alive == step_survives(*old(self), direction),
            old(self).alive ==> final(self).score == old(self).score + (if step_eats(
                *old(self),
                direction,
            ) {
                1int
            } else {
                0int
            }),
            old(self).alive && !step_eats(*old(self), direction) ==> final(self).fruit_pos == old(
                self,
            ).fruit_pos,
            old(self).alive && step_eats(*old(self), direction) ==> in_bounds(
                final(self).fruit_pos,
                old(self).size,
            ),
    {
        if !self.alive {
            return ;
        }
        let ghost pre: Board = *self;
        self.snake.move_direction(direction);
        let ghost m: Seq<Pos> = self.snake@;
        let head = self.snake.segs[0];

        if self.snake.did_self_collide(head.x, head.y) {
            self.alive = false;
            return ;
        }
        if head.x < 0 || head.x >= self.size || head.y < 0 || head.y >= self.size {
            self.alive = false;
            return ;
        }
        proof {
            lemma_advanced_body_in_bounds(pre, direction);
        }

        if head.x == self.fruit_pos.x && head.y == self.fruit_pos.y {
            self.snake.eat_fruit();
            self.spawn_fruit();
            self.score = self.score + 1;
        }
    }
}

/// After one advance of a live, well-formed board's snake, every non-head
/// segment is still on the grid: it sits where a segment of the old chain
/// sat.
proof fn lemma_advanced_body_in_bounds(b: Board, d: Directions)
    requires
        b.wf(),
        b.alive,
    ensures
        forall|i: int|
            1 <= i < advanced(b.snake@, d).len() ==> in_bounds(
                #[trigger] advanced(b.snake@, d)[i],
                b.size,
            ),
{
    assert forall|i: int| 1 <= i < advanced(b.snake@, d).len() implies in_bounds(
        #[trigger] advanced(b.snake@, d)[i],
        b.size,
    ) by {
        assert(advanced(b.snake@, d)[i] == b.snake@[i - 1]);
        assert(in_bounds(b.snake@[i - 1], b.size));
    }
}

} // verus!
