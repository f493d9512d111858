//! Projection of game state into a character grid and a text block.
//!
//! Rendering is a pure function of the board: a square grid of background
//! cells, the fruit stamped on top, and, while the snake lives, the head and
//! body stamped with their own symbols. The grid is then serialized row by
//! row, one line per row. No game-logic decision is made here.

use vstd::prelude::*;

use crate::board::Board;
use crate::game::{Pos, Snake};

verus! {

/// Whether one of the segments `s[j]` with `j < k` (and `j >= 1`: the head
/// does not count) sits at column `c`, row `r`.
pub open spec fn body_at_upto(s: Seq<Pos>, k: int, c: int, r: int) -> bool {
    exists|j: int| 1 <= j < k && j < s.len() && (#[trigger] s[j]).x == c && s[j].y == r
}

/// Whether one of the segments `s[j]` with `j < k` (the head included) sits
/// at column `c`, row `r`.
pub open spec fn any_at_upto(s: Seq<Pos>, k: int, c: int, r: int) -> bool {
    exists|j: int| 0 <= j < k && j < s.len() && (#[trigger] s[j]).x == c && s[j].y == r
}

/// What a grid cell at column `c`, row `r` with background `bg` shows once
/// the head and the first `k` segments of the chain are stamped: a body
/// symbol where a non-head segment sits, else the head symbol on the head's
/// cell, else the background.
pub open spec fn paint_upto(s: Seq<Pos>, k: int, bg: char, c: int, r: int) -> char {
    if body_at_upto(s, k, c, r) {
        '#'
    } else if s.len() >= 1 && s[0].x == c && s[0].y == r {
        '$'
    } else {
        bg
    }
}

/// What a grid cell shows once the whole snake is stamped.
pub open spec fn painted_cell(s: Seq<Pos>, bg: char, c: int, r: int) -> char {
    paint_upto(s, s.len() as int, bg, c, r)
}

/// What a grid cell shows once every segment (the head among them) is
/// stamped with the body symbol.
pub open spec fn body_painted_cell(s: Seq<Pos>, bg: char, c: int, r: int) -> char {
    if any_at_upto(s, s.len() as int, c, r) {
        '#'
    } else {
        bg
    }
}

/// Whether `p` is a valid cell of the character grid `g`.
pub open spec fn on_grid(p: Pos, g: Seq<Vec<char>>) -> bool {
    0 <= p.y < g.len() && 0 <= p.x < g[p.y as int]@.len()
}

/// Writes `ch` into the grid cell at column `x`, row `y`; every other cell
/// and every row length stays as it was.
fn put_cell(grid: &mut Vec<Vec<char>>, x: i32, y: i32, ch: char)
    requires
        0 <= y < old(grid)@.len(),
        0 <= x < old(grid)@[y as int]@.len(),
    ensures
        final(grid)@.len() == old(grid)@.len(),
        forall|r: int|
            0 <= r < old(grid)@.len() && r != y ==> final(grid)@[r] == old(grid)@[r],
        final(grid)@[y as int]@ == old(grid)@[y as int]@.update(x as int, ch),
{
    let yi: usize = y as usize;
    let xi: usize = x as usize;
    grid[yi][xi] = ch;
}

impl Snake {
    /// Stamps the snake into the grid: the head cell gets the head symbol,
    /// then every body segment's cell gets the body symbol (a body segment
    /// sharing the head's cell wins it). All other cells keep their value.
    pub fn render(&self, grid: &mut Vec<Vec<char>>)
        requires
            self@.len() >= 1,
            forall|i: int| 0 <= i < self@.len() ==> on_grid(#[trigger] self@[i], old(grid)@),
        ensures
            final(grid)@.len() == old(grid)@.len(),
            forall|r: int|
                0 <= r < old(grid)@.len() ==> (#[trigger] final(grid)@[r])@.len() == old(
                    grid,
                )@[r]@.len(),
            forall|r: int, c: int|
                0 <= r < old(grid)@.len() && 0 <= c < old(grid)@[r]@.len()
                    ==> final(grid)@[r]@[c] == painted_cell(self@, old(grid)@[r]@[c], c, r),
    {
        let ghost g0: Seq<Vec<char>> = grid@;
        let ghost s: Seq<Pos> = self@;
        let head = self.segs[0];
        put_cell(grid, head.x, head.y, '$');
        proof {
            assert forall|r: int, c: int| 0 <= r < g0.len() && 0 <= c < g0[r]@.len() implies grid@[r]@[c]
                == paint_upto(s, 1, g0[r]@[c], c, r) by {
                assert(!body_at_upto(s, 1, c, r));
            }
        }
        let n: usize = self.segs.len();
        let mut i: usize = 1;
        while i < n
            invariant
                1 <= i <= n,
                n == s.len(),
                s == self@,
                forall|k: int| 0 <= k < s.len() ==> on_grid(#[trigger] s[k], g0),
                grid@.len() == g0.len(),
                forall|r: int| 0 <= r < g0.len() ==> (#[trigger] grid@[r])@.len() == g0[r]@.len(),
                forall|r: int, c: int|
                    0 <= r < g0.len() && 0 <= c < g0[r]@.len() ==> grid@[r]@[c] == paint_upto(
                        s,
                        i as int,
                        g0[r]@[c],
                        c,
                        r,
                    ),
            decreases n - i,
        {
            let p = self.segs[i];
            let ghost gprev: Seq<Vec<char>> = grid@;
            put_cell(grid, p.x, p.y, '#');
            proof {
                assert forall|r: int, c: int| 0 <= r < g0.len() && 0 <= c < g0[r]@.len() implies grid@[r]@[c]
                    == paint_upto(s, i + 1, g0[r]@[c], c, r) by {
                    if c == p.x && r == p.y {
                        assert(s[i as int].x == c && s[i as int].y == r);
                        assert(body_at_upto(s, i + 1, c, r));
                        assert(grid@[r]@[c] == '#');
                    } else {
                        assert(grid@[r]@[c] == gprev[r]@[c]);
                        assert(body_at_upto(s, i + 1, c, r) == body_at_upto(s, i as int, c, r));
                    }
                }
            }
            i = i + 1;
        }
    }

    /// Stamps every segment's cell, the head's among them, with the body
    /// symbol. All other cells keep their value.
    pub fn render_body(&self, grid: &mut Vec<Vec<char>>)
        requires
            forall|i: int| 0 <= i < self@.len() ==> on_grid(#[trigger] self@[i], old(grid)@),
        ensures
            final(grid)@.len() == old(grid)@.len(),
            forall|r: int|
                0 <= r < old(grid)@.len() ==> (#[trigger] final(grid)@[r])@.len() == old(
                    grid,
                )@[r]@.len(),
            forall|r: int, c: int|
                0 <= r < old(grid)@.len() && 0 <= c < old(grid)@[r]@.len()
                    ==> final(grid)@[r]@[c] == body_painted_cell(self@, old(grid)@[r]@[c], c, r),
    {
        let ghost g0: Seq<Vec<char>> = grid@;
        let ghost s: Seq<Pos> = self@;
        let n: usize = self.segs.len();
        let mut i: usize = 0;
        while i < n
            invariant
                i <= n,
                n == s.len(),
                s == self@,
                forall|k: int| 0 <= k < s.len() ==> on_grid(#[trigger] s[k], g0),
                grid@.len() == g0.len(),
                forall|r: int| 0 <= r < g0.len() ==> (#[trigger] grid@[r])@.len() == g0[r]@.len(),
                forall|r: int, c: int|
                    0 <= r < g0.len() && 0 <= c < g0[r]@.len() ==> grid@[r]@[c] == (if any_at_upto(
                        s,
                        i as int,
                        c,
                        r,
                    ) {
                        '#'
                    } else {
                        g0[r]@[c]
                    }),
            decreases n - i,
        {
            let p = self.segs[i];
            let ghost gprev: Seq<Vec<char>> = grid@;
            put_cell(grid, p.x, p.y, '#');
            proof {
                assert forall|r: int, c: int| 0 <= r < g0.len() && 0 <= c < g0[r]@.len() implies grid@[r]@[c]
                    == (if any_at_upto(s, i + 1, c, r) {
                    '#'
                } else {
                    g0[r]@[c]
                }) by {
                    if c == p.x && r == p.y {
                        assert(s[i as int].x == c && s[i as int].y == r);
                        assert(any_at_upto(s, i + 1, c, r));
                    } else {
                        assert(grid@[r]@[c] == gprev[r]@[c]);
                        assert(any_at_upto(s, i + 1, c, r) == any_at_upto(s, i as int, c, r));
                    }
                }
            }
            i = i + 1;
        }
    }
}

/// Relies on String::push: appends the given character to the end of the
/// string.
pub assume_specification[ String::push ](s: &mut String, ch: char)
    ensures
        final(s)@ == old(s)@.push(ch),
;

/// The text of the first `n` rows: the rows' characters in order, each row
/// followed by one line break.
pub open spec fn text_upto(rows: Seq<Seq<char>>, n: int) -> Seq<char>
    decreases n,
{
    if n <= 0 {
        Seq::empty()
    } else {
        text_upto(rows, n - 1) + rows[n - 1] + seq!['\n']
    }
}

/// The text block of a whole grid: one line per row, in row order.
pub open spec fn text_of(rows: Seq<Seq<char>>) -> Seq<char> {
    text_upto(rows, rows.len() as int)
}

/// Serializes a character grid row by row into one text block, each row on a
/// line of its own.
pub fn grid_to_text(grid: &Vec<Vec<char>>) -> (s: String)
    ensures
        s@ == text_of(grid@.map_values(|row: Vec<char>| row@)),
{
    let ghost rows: Seq<Seq<char>> = grid@.map_values(|row: Vec<char>| row@);
    let mut s = String::new();
    let n: usize = grid.len();
    let mut r: usize = 0;
    while r < n
        invariant
            r <= n,
            n == grid@.len(),
            rows == grid@.map_values(|row: Vec<char>| row@),
            s@ == text_upto(rows, r as int),
        decreases n - r,
    {
        let m: usize = grid[r].len();
        let mut c: usize = 0;
        while c < m
            invariant
                c <= m,
                r < n,
                n == grid@.len(),
                m == grid@[r as int]@.len(),
                rows == grid@.map_values(|row: Vec<char>| row@),
                s@ == text_upto(rows, r as int) + rows[r as int].take(c as int),
            decreases m - c,
        {
            let ch = grid[r][c];
            s.push(ch);
            proof {
                assert(rows[r as int] == grid@[r as int]@);
                assert(rows[r as int].take(c + 1) =~= rows[r as int].take(c as int).push(
                    grid@[r as int]@[c as int],
                ));
                assert(s@ =~= text_upto(rows, r as int) + rows[r as int].take(c + 1));
            }
            c = c + 1;
        }
        s.push('\n');
        proof {
            assert(rows[r as int].take(m as int) =~= rows[r as int]);
            assert(s@ =~= text_upto(rows, r as int + 1));
        }
        r = r + 1;
    }
    proof {
        assert(rows.len() == grid@.len());
    }
    s
}

/// Relies on String::push_str: appends the given string slice to the end of
/// the string.
pub assume_specification[ String::push_str ](s: &mut String, other: &str)
    ensures
        final(s)@ == old(s)@ + other@,
;

/// The decimal digits of a non-negative number, most significant first, with
/// no sign and no leading zero (a lone zero for zero itself).
pub open spec fn dec_digits(n: int) -> Seq<char>
    recommends
        n >= 0,
    decreases n,
{
    if n < 10 {
        seq![digit_char(n)]
    } else {
        dec_digits(n / 10) + seq![digit_char(n % 10)]
    }
}

/// The character for one decimal digit.
pub open spec fn digit_char(d: int) -> char
    recommends
        0 <= d < 10,
{
    if d == 0 {
        '0'
    } else if d == 1 {
        '1'
    } else if d == 2 {
        '2'
    } else if d == 3 {
        '3'
    } else if d == 4 {
        '4'
    } else if d == 5 {
        '5'
    } else if d == 6 {
        '6'
    } else if d == 7 {
        '7'
    } else if d == 8 {
        '8'
    } else {
        '9'
    }
}

/// The decimal text of any integer: a minus sign before the digits of the
/// magnitude when negative.
pub open spec fn int_text(n: int) -> Seq<char> {
    if n < 0 {
        seq!['-'] + dec_digits(-n)
    } else {
        dec_digits(n)
    }
}

fn digit_char_exec(d: u32) -> (c: char)
    requires
        d < 10,
    ensures
        c == digit_char(d as int),
{
    match d {
        0 => '0',
        1 => '1',
        2 => '2',
        3 => '3',
        4 => '4',
        5 => '5',
        6 => '6',
        7 => '7',
        8 => '8',
        _ => '9',
    }
}

/// Appends the decimal digits of `n` to `s`, most significant first.
fn push_decimal(s: &mut String, n: u32)
    ensures
        final(s)@ == old(s)@ + dec_digits(n as int),
    decreases n,
{
    if n >= 10 {
        push_decimal(s, n / 10);
        let c = digit_char_exec(n % 10);
        s.push(c);
        proof {
            assert(s@ =~= old(s)@ + dec_digits(n as int));
        }
    } else {
        let c = digit_char_exec(n);
        s.push(c);
        proof {
            assert(s@ =~= old(s)@ + dec_digits(n as int));
        }
    }
}

/// Appends the decimal text of `v` to `s`, sign included.
fn push_i32(s: &mut String, v: i32)
    ensures
        final(s)@ == old(s)@ + int_text(v as int),
{
    if v < 0 {
        s.push('-');
        let m: u32 = (-(v as i64)) as u32;
        push_decimal(s, m);
        proof {
            assert(s@ =~= old(s)@ + int_text(v as int));
        }
    } else {
        push_decimal(s, v as u32);
    }
}

/// The status line above the grid: the head's column and row, and the score.
pub open spec fn status_text(head: Pos, score: i32) -> Seq<char> {
    "X: "@ + int_text(head.x as int) + ", Y: "@ + int_text(head.y as int) + ", Score: "@
        + int_text(score as int)
}

/// The help line below the grid.
pub open spec fn help_text() -> Seq<char> {
    "ESC = Quit | LEFT, RIGHT, UP, DOWN"@
}

/// Writes the status line for a head position and a score.
pub fn status_line(head: Pos, score: i32) -> (s: String)
    ensures
        s@ == status_text(head, score),
{
    let mut s: String = "X: ".to_owned();
    push_i32(&mut s, head.x);
    s.push_str(", Y: ");
    push_i32(&mut s, head.y);
    s.push_str(", Score: ");
    push_i32(&mut s, score);
    proof {
        assert(s@ =~= status_text(head, score));
    }
    s
}

/// What the full rendering of board `b` shows at column `c`, row `r`: the
/// fruit symbol on the fruit's cell, else the snake (while alive) over an
/// empty-cell background.
pub open spec fn board_cell(b: Board, c: int, r: int) -> char {
    if b.fruit_pos.x == c && b.fruit_pos.y == r {
        '@'
    } else if b.alive {
        painted_cell(b.snake@, '*', c, r)
    } else {
        '*'
    }
}

/// The rows of the full rendering of board `b`, each cell as `board_cell`
/// gives it.
pub open spec fn board_rows(b: Board) -> Seq<Seq<char>> {
    Seq::new(b.size as nat, |r: int| Seq::new(b.size as nat, |c: int| board_cell(b, c, r)))
}

/// Everything one tick writes to the screen: the status line, the grid block
/// (one line per row), a blank line, and the help line.
pub open spec fn page_text(b: Board) -> Seq<char> {
    status_text(b.snake@[0], b.score) + seq!['\n'] + text_of(board_rows(b)) + seq!['\n']
        + help_text() + seq!['\n']
}

impl Board {
    /// The character grid for the whole board: background everywhere, the
    /// snake stamped while it lives, and the fruit stamped on top.
    pub fn render_grid(&self) -> (grid: Vec<Vec<char>>)
        requires
            self.wf(),
        ensures
            grid@.len() == self.size as int,
            forall|r: int|
                0 <= r < self.size ==> (#[trigger] grid@[r])@.len() == self.size as int,
            forall|r: int, c: int|
                0 <= r < self.size && 0 <= c < self.size ==> grid@[r]@[c] == board_cell(
                    *self,
                    c,
                    r,
                ),
    {
        let size: usize = self.size as usize;
        let mut grid: Vec<Vec<char>> = Vec::new();
        let mut r: usize = 0;
        while r < size
            invariant
                r <= size,
                grid@.len() == r as int,
                forall|k: int| 0 <= k < r ==> (#[trigger] grid@[k])@.len() == size as int,
                forall|k: int, c: int|
                    0 <= k < r && 0 <= c < size ==> grid@[k]@[c] == '*',
            decreases size - r,
        {
            let mut row: Vec<char> = Vec::new();
            let mut c: usize = 0;
            while c < size
                invariant
                    c <= size,
                    row@.len() == c as int,
                    forall|k: int| 0 <= k < c ==> row@[k] == '*',
                decreases size - c,
            {
                row.push('*');
                c = c + 1;
            }
            grid.push(row);
            r = r + 1;
        }

        let ghost gbg: Seq<Vec<char>> = grid@;
        if self.alive {
            self.snake.render(&mut grid);
        }
        let ghost gsnake: Seq<Vec<char>> = grid@;
        put_cell(&mut grid, self.fruit_pos.x, self.fruit_pos.y, '@');
        proof {
            assert forall|rr: int, cc: int| 0 <= rr < self.size && 0 <= cc < self.size implies grid@[rr]@[cc]
                == board_cell(*self, cc, rr) by {
                if rr == self.fruit_pos.y && cc == self.fruit_pos.x {
                    assert(grid@[rr]@[cc] == '@');
                } else {
                    assert(grid@[rr]@[cc] == gsnake[rr]@[cc]);
                }
            }
        }
        grid
    }

    /// The whole text block one tick shows: status line, grid, blank line,
    /// help line. A pure projection of the board; printing it is the
    /// caller's business.
    pub fn render_text(&self) -> (s: String)
        requires
            self.wf(),
        ensures
            s@ == page_text(*self),
    {
        let head = self.snake.segs[0];
        let mut s = status_line(head, self.score);
        s.push('\n');
        let grid = self.render_grid();
        let text = grid_to_text(&grid);
        s.push_str(text.as_str());
        s.push('\n');
        s.push_str("ESC = Quit | LEFT, RIGHT, UP, DOWN");
        s.push('\n');
        proof {
            assert forall|r: int| 0 <= r < self.size implies grid@.map_values(
                |row: Vec<char>| row@,
            )[r] =~= board_rows(*self)[r] by {
                assert(grid@.map_values(|row: Vec<char>| row@)[r] == grid@[r]@);
            }
            assert(grid@.map_values(|row: Vec<char>| row@) =~~= board_rows(*self));
            assert(s@ =~= page_text(*self));
        }
        s
    }
}

} // verus!
