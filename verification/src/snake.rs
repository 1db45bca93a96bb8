//! The snake: a body of grid cells together with a current direction and
//! the grid it moves within. Movement prepends a wrapped head cell and,
//! unless the snake is growing, drops the tail; a direction change that
//! would reverse the snake into its own neck is ignored.

use vstd::prelude::*;
use vstd::arithmetic::div_mod::{lemma_mod_add_multiples_vanish, lemma_mod_self_0, lemma_small_mod};
use crate::body::{Body, initial_body};
use crate::grid::{wrap, wrap_spec};

verus! {

/// A movement direction on the grid. `Down` is the direction a fresh snake
/// starts with.
#[derive(PartialEq, Eq, Structural, Debug, Clone, Copy)]
pub enum Direction {
    Left,
    Right,
    Up,
    Down,
}

impl Default for Direction {
    fn default() -> (r: Direction)
        ensures
            r == Direction::Down,
    {
        Direction::Down
    }
}

/// The direction that would reverse `d`.
pub open spec fn opposite(d: Direction) -> Direction {
    match d {
        Direction::Left => Direction::Right,
        Direction::Right => Direction::Left,
        Direction::Up => Direction::Down,
        Direction::Down => Direction::Up,
    }
}

/// The direction a snake pointing in `current` ends up with after a request
/// to turn towards `requested`: the request is ignored exactly when it is
/// the direct reverse of `current`.
pub open spec fn applied_direction(current: Direction, requested: Direction) -> Direction {
    if requested == opposite(current) {
        current
    } else {
        requested
    }
}

/// One grid cell, as its `(x, y)` coordinates.
#[derive(PartialEq, Eq, Structural, Debug, Clone, Copy)]
pub struct Pt(pub i32, pub i32);

impl Default for Pt {
    fn default() -> (r: Pt)
        ensures
            r == Pt(1, 1),
    {
        Pt(1, 1)
    }
}

/// Whether `p` lies on a grid of `width_cells` by `height_cells` cells.
pub open spec fn cell_in_grid(p: Pt, width_cells: int, height_cells: int) -> bool {
    &&& 0 <= p.0
    &&& (p.0 as int) < width_cells
    &&& 0 <= p.1
    &&& (p.1 as int) < height_cells
}

/// The abstract state of a snake: its cells head-first, its direction, and
/// the grid dimensions it wraps within.
#[verifier::ext_equal]
pub ghost struct SnakeView {
    pub body: Seq<Pt>,
    pub direction: Direction,
    pub width_cells: int,
    pub height_cells: int,
}

/// A well-formed snake: at least one cell, a grid wide enough for the
/// initial three-cell row, and every cell on the grid.
pub open spec fn snake_wf(v: SnakeView) -> bool {
    &&& v.body.len() >= 1
    &&& 3 <= v.width_cells <= i32::MAX as int
    &&& 1 <= v.height_cells <= i32::MAX as int
    &&& forall|i: int|
        0 <= i < v.body.len() ==> #[trigger] cell_in_grid(v.body[i], v.width_cells, v.height_cells)
}

/// The cell the head moves to next: one wrap-around step from the current
/// head along the current direction (`Left`/`Right` move x, `Up`/`Down`
/// move y; `Up` and `Left` step by -1, `Down` and `Right` by +1).
pub open spec fn next_head(v: SnakeView) -> Pt {
    let h = v.body[0];
    match v.direction {
        Direction::Up => Pt(h.0, wrap_spec(h.1 as int, v.height_cells, -1) as i32),
        Direction::Down => Pt(h.0, wrap_spec(h.1 as int, v.height_cells, 1) as i32),
        Direction::Left => Pt(wrap_spec(h.0 as int, v.width_cells, -1) as i32, h.1),
        Direction::Right => Pt(wrap_spec(h.0 as int, v.width_cells, 1) as i32, h.1),
    }
}

/// The body after one movement step: the next head cell prepended and,
/// unless the snake is growing, the tail dropped.
pub open spec fn moved_body(v: SnakeView, growing: bool) -> Seq<Pt> {
    let grown = seq![next_head(v)] + v.body;
    if growing {
        grown
    } else {
        grown.drop_last()
    }
}

/// Whether the head cell coincides with any other body cell.
pub open spec fn body_collides(b: Seq<Pt>) -> bool {
    exists|i: int| 1 <= i < b.len() && #[trigger] b[i] == b[0]
}

pub struct Snake {
    body: Body,
    direction: Direction,
    width_cells: i32,
    height_cells: i32,
}

impl View for Snake {
    type V = SnakeView;

    closed spec fn view(&self) -> SnakeView {
        SnakeView {
            body: self.body@,
            direction: self.direction,
            width_cells: self.width_cells as int,
            height_cells: self.height_cells as int,
        }
    }
}

impl Snake {
    pub open spec fn wf(&self) -> bool {
        snake_wf(self@)
    }

    /// A fresh snake on a `width_cells` by `height_cells` grid: the initial
    /// three-cell row, pointing `Down`. The grid must be wide enough to
    /// hold the row.
    pub fn new(width_cells: i32, height_cells: i32) -> (r: Snake)
        requires
            3 <= width_cells,
            1 <= height_cells,
        ensures
            r.wf(),
            r@.body == initial_body(),
            r@.direction == Direction::Down,
            r@.width_cells == width_cells as int,
            r@.height_cells == height_cells as int,
    {
        let mut body = Body::new();
        body.reset();
        let r = Snake { body, direction: Direction::default(), width_cells, height_cells };
        proof {
            lemma_initial_body_in_grid(width_cells as int, height_cells as int);
        }
        r
    }

    /// Restores the initial body and direction, whatever the prior state.
    pub fn reset(&mut self)
        requires
            old(self).wf(),
        ensures
            final(self).wf(),
            final(self)@.body == initial_body(),
            final(self)@.direction == Direction::Down,
            final(self)@.width_cells == old(self)@.width_cells,
            final(self)@.height_cells == old(self)@.height_cells,
    {
        self.body.reset();
        self.direction = Direction::default();
        proof {
            lemma_initial_body_in_grid(self@.width_cells, self@.height_cells);
        }
    }

    /// The head cell: the first cell of the body.
    pub fn head(&self) -> (r: &Pt)
        requires
            self@.body.len() >= 1,
        ensures
            *r == self@.body[0],
    {
        self.body.head()
    }

    /// How many cells the body occupies.
    pub fn len(&self) -> (r: usize)
        ensures
            r == self@.body.len(),
    {
        self.body.len()
    }

    /// The current direction.
    pub fn direction(&self) -> (r: Direction)
        ensures
            r == self@.direction,
    {
        self.direction
    }

    /// Whether the snake has run into itself: the head cell equals some
    /// body cell at index 1 or later.
    pub fn collapsed_into_self(&self) -> (r: bool)
        requires
            self@.body.len() >= 1,
        ensures
            r == body_collides(self@.body),
    {
        let head = *self.body.head();
        self.body.contains_at_or_after(1, head)
    }

    /// One movement step: the head advances one cell in the current
    /// direction, wrapping at the grid edges; the tail is kept exactly when
    /// the snake is growing, so the length grows by one on a growing step
    /// and is unchanged otherwise.
    pub fn make_move(&mut self, growing: bool)
        requires
            old(self).wf(),
        ensures
            final(self).wf(),
            final(self)@.body == moved_body(old(self)@, growing),
            final(self)@.body[0] == next_head(old(self)@),
            final(self)@.direction == old(self)@.direction,
            final(self)@.width_cells == old(self)@.width_cells,
            final(self)@.height_cells == old(self)@.height_cells,
            growing ==> final(self)@.body.len() == old(self)@.body.len() + 1,
            !growing ==> final(self)@.body.len() == old(self)@.body.len(),
    {
        proof {
            assert(cell_in_grid(old(self)@.body[0], old(self)@.width_cells, old(self)@.height_cells));
        }
        let head = *self.body.head();
        let new_head = match self.direction {
            Direction::Up => Pt(head.0, wrap(head.1, self.height_cells, -1)),
            Direction::Down => Pt(head.0, wrap(head.1, self.height_cells, 1)),
            Direction::Left => Pt(wrap(head.0, self.width_cells, -1), head.1),
            Direction::Right => Pt(wrap(head.0, self.width_cells, 1), head.1),
        };
        self.body.prepend(new_head);
        if !growing {
            self.body.remove_tail();
        }
        proof {
            assert(new_head == next_head(old(self)@));
            assert(self@.body == moved_body(old(self)@, growing)) by {
                if growing {
                } else {
                    assert(self@.body =~= (seq![new_head] + old(self)@.body).drop_last());
                }
            }
            assert forall|i: int| 0 <= i < self@.body.len() implies #[trigger] cell_in_grid(
                self@.body[i],
                self@.width_cells,
                self@.height_cells,
            ) by {
                if i == 0 {
                    assert(cell_in_grid(new_head, self@.width_cells, self@.height_cells));
                } else {
                    assert(self@.body[i] == old(self)@.body[i - 1]);
                    assert(cell_in_grid(
                        old(self)@.body[i - 1],
                        old(self)@.width_cells,
                        old(self)@.height_cells,
                    ));
                }
            }
        }
    }

    /// Requests a turn. The request is ignored exactly when it would
    /// reverse the snake (`Left` against `Right`, `Up` against `Down`);
    /// everything but the direction is untouched.
    pub fn set_direction(&mut self, direction: Direction)
        ensures
            final(self)@.direction == applied_direction(old(self)@.direction, direction),
            direction == opposite(old(self)@.direction)
                ==> final(self)@.direction == old(self)@.direction,
            final(self)@.body == old(self)@.body,
            final(self)@.width_cells == old(self)@.width_cells,
            final(self)@.height_cells == old(self)@.height_cells,
    {
        if self.direction == Direction::Right && direction == Direction::Left {
            return;
        }
        if self.direction == Direction::Left && direction == Direction::Right {
            return;
        }
        if self.direction == Direction::Down && direction == Direction::Up {
            return;
        }
        if self.direction == Direction::Up && direction == Direction::Down {
            return;
        }
        self.direction = direction;
    }

    /// The occupied cells, head-first, for a renderer to paint.
    pub fn draw(&self) -> (cells: Vec<Pt>)
        ensures
            cells@ == self@.body,
    {
        let n = self.body.len();
        let mut cells: Vec<Pt> = Vec::new();
        let mut i: usize = 0;
        proof {
            assert(cells@ =~= self@.body.subrange(0, 0));
        }
        while i < n
            invariant
                i <= n,
                n == self@.body.len(),
                cells@ == self@.body.subrange(0, i as int),
            decreases n - i,
        {
            cells.push(*self.body.get(i));
            proof {
                assert(cells@ =~= self@.body.subrange(0, i as int + 1));
            }
            i = i + 1;
        }
        proof {
            assert(cells@ =~= self@.body);
        }
        cells
    }
}

/// Every cell of the initial three-cell row lies on a grid that is at
/// least 3 cells wide and 1 cell high.
proof fn lemma_initial_body_in_grid(width_cells: int, height_cells: int)
    requires
        3 <= width_cells,
        1 <= height_cells,
    ensures
        forall|i: int|
            0 <= i < initial_body().len() ==> #[trigger] cell_in_grid(
                initial_body()[i],
                width_cells,
                height_cells,
            ),
{
    assert forall|i: int| 0 <= i < initial_body().len() implies #[trigger] cell_in_grid(
        initial_body()[i],
        width_cells,
        height_cells,
    ) by {
        if i == 0 {
            assert(initial_body()[0] == Pt(0, 0));
        } else if i == 1 {
            assert(initial_body()[1] == Pt(1, 0));
        } else {
            assert(initial_body()[2] == Pt(2, 0));
        }
    }
}

/// Wrap-around law: a head on an edge, moving off it, reappears on the
/// opposite edge.
pub proof fn lemma_wrap_around(v: SnakeView)
    requires
        snake_wf(v),
    ensures
        v.direction == Direction::Left && v.body[0].0 == 0 ==> next_head(v).0 == v.width_cells
            - 1,
        v.direction == Direction::Right && v.body[0].0 == v.width_cells - 1 ==> next_head(v).0
            == 0,
        v.direction == Direction::Up && v.body[0].1 == 0 ==> next_head(v).1 == v.height_cells
            - 1,
        v.direction == Direction::Down && v.body[0].1 == v.height_cells - 1 ==> next_head(v).1
            == 0,
{
    let w = v.width_cells;
    let h = v.height_cells;
    lemma_mod_add_multiples_vanish(-1, w);
    lemma_small_mod((w - 1) as nat, w as nat);
    lemma_mod_self_0(w);
    lemma_mod_add_multiples_vanish(-1, h);
    lemma_small_mod((h - 1) as nat, h as nat);
    lemma_mod_self_0(h);
}

} // verus!
