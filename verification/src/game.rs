//! The game state machine: it owns the snake, the food cell, the tick
//! counter, the score and the phase, applies input events, and advances the
//! simulation on gated ticks. Randomness for food placement comes from the
//! thread-local generator behind trusted wrappers; everything that follows
//! from a drawn value is verified for every value it could take.

use vstd::prelude::*;
use rand::RngExt;
use crate::body::initial_body;
use crate::snake::{
    applied_direction, body_collides, cell_in_grid, moved_body, snake_wf, Direction, Pt, Snake,
    SnakeView,
};

verus! {

/// A movement step happens once every this many ticks.
pub const TICKS_PER_STEP: u64 = 5;

/// The round phase. Exactly one is active; it gates movement, input
/// handling and scoring.
#[derive(PartialEq, Eq, Structural, Debug, Clone, Copy)]
pub enum State {
    Running,
    Paused,
    GameOver,
    PopExit,
}

/// The discrete input predicates a host hands over, once per tick: which
/// keys are newly pressed. `pause` and `cancel` may well be the same
/// physical key; the phase decides which meaning applies.
#[derive(PartialEq, Eq, Structural, Debug, Clone, Copy)]
pub struct Input {
    pub left: bool,
    pub right: bool,
    pub up: bool,
    pub down: bool,
    pub pause: bool,
    pub confirm: bool,
    pub cancel: bool,
    pub exit_combo: bool,
}

impl Input {
    /// A tick on which no key is pressed.
    pub fn none() -> (r: Input)
        ensures
            r == (Input {
                left: false,
                right: false,
                up: false,
                down: false,
                pause: false,
                confirm: false,
                cancel: false,
                exit_combo: false,
            }),
    {
        Input {
            left: false,
            right: false,
            up: false,
            down: false,
            pause: false,
            confirm: false,
            cancel: false,
            exit_combo: false,
        }
    }
}

/// The abstract state of a game.
#[verifier::ext_equal]
pub ghost struct GameView {
    pub cell_size: int,
    pub width_cells: int,
    pub height_cells: int,
    pub top_margin: int,
    pub width: int,
    pub height: int,
    pub snake: SnakeView,
    pub food: Pt,
    pub counter: int,
    pub score: int,
    pub state: State,
}

/// A well-formed game: a well-formed snake on the same grid the game
/// records, the food on the grid, and the pixel sizes consistent with the
/// cell counts.
pub open spec fn game_wf(v: GameView) -> bool {
    &&& snake_wf(v.snake)
    &&& v.snake.width_cells == v.width_cells
    &&& v.snake.height_cells == v.height_cells
    &&& 2 <= v.height_cells
    &&& 1 <= v.cell_size
    &&& 0 <= v.top_margin
    &&& v.width == v.cell_size * v.width_cells
    &&& v.height == v.cell_size * v.height_cells + v.top_margin
    &&& cell_in_grid(v.food, v.width_cells, v.height_cells)
    &&& 0 <= v.counter <= u64::MAX
    &&& 0 <= v.score <= usize::MAX
}

/// Whether this tick is one the turn gate lets through: the counter is a
/// multiple of `TICKS_PER_STEP` and the round is running.
pub open spec fn gated(v: GameView) -> bool {
    v.counter % (TICKS_PER_STEP as int) == 0 && v.state == State::Running
}

/// Whether the head currently sits on the food cell.
pub open spec fn eats_food(v: GameView) -> bool {
    v.snake.body[0] == v.food
}

/// The direction a tick's input asks for, if any; the four direction keys
/// are checked in a fixed priority order and only the first pressed one
/// counts.
pub open spec fn queued_direction(i: Input) -> Option<Direction> {
    if i.left {
        Some(Direction::Left)
    } else if i.right {
        Some(Direction::Right)
    } else if i.up {
        Some(Direction::Up)
    } else if i.down {
        Some(Direction::Down)
    } else {
        None
    }
}

/// What one tick's input does to the game, and whether it asks the host to
/// terminate: the first matching transition in priority order fires. A
/// direction key only turns the snake (subject to the no-reverse rule); the
/// pause key pauses a running round; confirm resumes a paused round,
/// answers the exit prompt, or restarts after a game over (fresh snake,
/// score zero); the exit combo opens the exit prompt from a running or
/// paused round; cancel closes it.
pub open spec fn input_outcome(v: GameView, i: Input) -> (GameView, bool) {
    if queued_direction(i) is Some {
        (
            GameView {
                snake: SnakeView {
                    direction: applied_direction(
                        v.snake.direction,
                        queued_direction(i)->Some_0,
                    ),
                    ..v.snake
                },
                ..v
            },
            false,
        )
    } else if i.pause && v.state == State::Running {
        (GameView { state: State::Paused, ..v }, false)
    } else if i.confirm && v.state == State::Paused {
        (GameView { state: State::Running, ..v }, false)
    } else if i.exit_combo && (v.state == State::Running || v.state == State::Paused) {
        (GameView { state: State::PopExit, ..v }, false)
    } else if i.confirm && v.state == State::PopExit {
        (v, true)
    } else if i.cancel && v.state == State::PopExit {
        (GameView { state: State::Running, ..v }, false)
    } else if i.confirm && v.state == State::GameOver {
        (
            GameView {
                snake: SnakeView {
                    body: initial_body(),
                    direction: Direction::Down,
                    ..v.snake
                },
                score: 0,
                state: State::Running,
                ..v
            },
            false,
        )
    } else {
        (v, false)
    }
}

/// What a gated simulation step does, as a relation from the state it
/// starts from to the state it leaves: eating bumps the score and redraws
/// the food somewhere on the grid (anywhere; what was drawn is random), a
/// collision ends the round with the body untouched, and otherwise the
/// snake moves, growing exactly when it ate.
pub open spec fn gated_step(pre: GameView, post: GameView) -> bool {
    &&& post.score == (if eats_food(pre) {
        pre.score + 1
    } else {
        pre.score
    })
    &&& (!eats_food(pre) ==> post.food == pre.food)
    &&& (eats_food(pre) ==> cell_in_grid(post.food, pre.width_cells, pre.height_cells))
    &&& post.state == (if body_collides(pre.snake.body) {
        State::GameOver
    } else {
        State::Running
    })
    &&& (body_collides(pre.snake.body) ==> post.snake == pre.snake)
    &&& (!body_collides(pre.snake.body) ==> post.snake == (SnakeView {
        body: moved_body(pre.snake, eats_food(pre)),
        ..pre.snake
    }))
}

/// What one simulation tick does: nothing at all when the turn gate
/// blocks, one gated step otherwise; the counter and the configuration are
/// never touched.
pub open spec fn stepped_game(pre: GameView, post: GameView) -> bool {
    &&& (!gated(pre) ==> post == pre)
    &&& (gated(pre) ==> gated_step(pre, post))
    &&& post.counter == pre.counter
    &&& post.cell_size == pre.cell_size
    &&& post.width_cells == pre.width_cells
    &&& post.height_cells == pre.height_cells
    &&& post.top_margin == pre.top_margin
    &&& post.width == pre.width
    &&& post.height == pre.height
}

/// Relies on `rand::rngs::ThreadRng`: the handle to the thread-local
/// generator, opaque to the verifier.
#[verifier::external_type_specification]
#[verifier::external_body]
pub struct ExThreadRng(rand::rngs::ThreadRng);

/// Relies on `rand::rng`: it hands out the thread-local generator. Nothing
/// is promised of the values it will produce.
#[verifier::external_body]
fn new_rng() -> rand::rngs::ThreadRng {
    rand::rng()
}

/// Relies on `rand::RngExt::random_range` over `0..n`: it returns a value
/// uniformly drawn from that range, and panics only when the range is
/// empty, which the precondition rules out.
#[verifier::external_body]
fn rand_below(rng: &mut rand::rngs::ThreadRng, n: i32) -> (r: i32)
    requires
        1 <= n,
    ensures
        0 <= r < n,
{
    rng.random_range(0..n)
}

/// Draws a food cell uniformly on the grid. Deliberately no rejection
/// against the snake's occupied cells: food may land on the body, where it
/// simply cannot be eaten until the body moves away.
pub fn spawn_food(rng: &mut rand::rngs::ThreadRng, width_cells: i32, height_cells: i32) -> (p: Pt)
    requires
        1 <= width_cells,
        1 <= height_cells,
    ensures
        cell_in_grid(p, width_cells as int, height_cells as int),
{
    Pt(rand_below(rng, width_cells), rand_below(rng, height_cells))
}

pub struct Game {
    cell_size: i32,
    width_cells: i32,
    height_cells: i32,
    top_margin: i32,
    width: i32,
    height: i32,
    snake: Snake,
    rng: rand::rngs::ThreadRng,
    food_pt: Pt,
    counter: u64,
    score: usize,
    state: State,
}

impl View for Game {
    type V = GameView;

    closed spec fn view(&self) -> GameView {
        GameView {
            cell_size: self.cell_size as int,
            width_cells: self.width_cells as int,
            height_cells: self.height_cells as int,
            top_margin: self.top_margin as int,
            width: self.width as int,
            height: self.height as int,
            snake: self.snake@,
            food: self.food_pt,
            counter: self.counter as int,
            score: self.score as int,
            state: self.state,
        }
    }
}

impl Game {
    pub open spec fn wf(&self) -> bool {
        game_wf(self@)
    }

    /// A fresh game around `snake`, in the running phase, with counter and
    /// score at zero and the food at its fixed starting cell. The pixel
    /// width and height are derived from the cell size and counts, which
    /// must not overflow them.
    pub fn new(
        cell_size: i32,
        width_cells: i32,
        height_cells: i32,
        top_margin: i32,
        snake: Snake,
    ) -> (r: Game)
        requires
            snake.wf(),
            snake@.width_cells == width_cells as int,
            snake@.height_cells == height_cells as int,
            2 <= height_cells,
            1 <= cell_size,
            0 <= top_margin,
            cell_size as int * width_cells as int <= i32::MAX as int,
            cell_size as int * height_cells as int + top_margin as int <= i32::MAX as int,
        ensures
            r.wf(),
            r@.cell_size == cell_size as int,
            r@.width_cells == width_cells as int,
            r@.height_cells == height_cells as int,
            r@.top_margin == top_margin as int,
            r@.width == cell_size as int * width_cells as int,
            r@.height == cell_size as int * height_cells as int + top_margin as int,
            r@.snake == snake@,
            r@.food == Pt(1, 1),
            r@.counter == 0,
            r@.score == 0,
            r@.state == State::Running,
    {
        proof {
            assert(cell_size as int * width_cells as int >= 1) by (nonlinear_arith)
                requires
                    1 <= cell_size,
                    3 <= width_cells,
            ;
            assert(cell_size as int * height_cells as int >= 1) by (nonlinear_arith)
                requires
                    1 <= cell_size,
                    2 <= height_cells,
            ;
        }
        let width = cell_size * width_cells;
        let height = cell_size * height_cells + top_margin;
        Game {
            cell_size,
            width_cells,
            height_cells,
            top_margin,
            width,
            height,
            snake,
            rng: new_rng(),
            food_pt: Pt(1, 1),
            counter: 0,
            score: 0,
            state: State::Running,
        }
    }

    /// The drawing surface width in pixels.
    pub fn width(&self) -> (r: i32)
        ensures
            r == self@.width,
    {
        self.width
    }

    /// The drawing surface height in pixels.
    pub fn height(&self) -> (r: i32)
        ensures
            r == self@.height,
    {
        self.height
    }

    /// The grid width in cells.
    pub fn width_cells(&self) -> (r: i32)
        ensures
            r == self@.width_cells,
    {
        self.width_cells
    }

    /// The grid height in cells.
    pub fn height_cells(&self) -> (r: i32)
        ensures
            r == self@.height_cells,
    {
        self.height_cells
    }

    /// The current phase.
    pub fn state(&self) -> (r: State)
        ensures
            r == self@.state,
    {
        self.state
    }

    /// The current food cell.
    pub fn food(&self) -> (r: Pt)
        ensures
            r == self@.food,
    {
        self.food_pt
    }

    /// How many food cells were eaten this round.
    pub fn score(&self) -> (r: usize)
        ensures
            r == self@.score,
    {
        self.score
    }

    /// The tick counter.
    pub fn counter(&self) -> (r: u64)
        ensures
            r == self@.counter,
    {
        self.counter
    }

    /// The snake, for a renderer to query.
    pub fn snake(&self) -> (r: &Snake)
        ensures
            r@ == self@.snake,
    {
        &self.snake
    }

    /// Places the food, so that a host may drive rounds deterministically.
    pub fn set_food(&mut self, food: Pt)
        requires
            old(self).wf(),
            cell_in_grid(food, old(self)@.width_cells, old(self)@.height_cells),
        ensures
            final(self).wf(),
            final(self)@ == (GameView { food: food, ..old(self)@ }),
    {
        self.food_pt = food;
    }

    /// Counts one external tick.
    pub fn inc_counter(&mut self)
        requires
            old(self)@.counter < u64::MAX,
        ensures
            final(self)@ == (GameView { counter: old(self)@.counter + 1, ..old(self)@ }),
    {
        self.counter = self.counter + 1;
    }

    /// The turn gate: whether this tick advances the simulation.
    pub fn should_make_move(&self) -> (r: bool)
        ensures
            r == gated(self@),
    {
        self.counter % TICKS_PER_STEP == 0 && self.state == State::Running
    }

    /// One tick of the simulation. On a tick the turn gate blocks, nothing
    /// changes. On a gated tick: if the head sits on the food, the food is
    /// redrawn at random and the score counts it; then, if the head already
    /// coincides with another body cell, the round ends and the body stays
    /// put; otherwise the snake moves, growing exactly when it ate.
    pub fn step(&mut self)
        requires
            old(self).wf(),
            old(self)@.score < usize::MAX,
        ensures
            final(self).wf(),
            stepped_game(old(self)@, final(self)@),
    {
        if self.should_make_move() {
            let mut growing = false;
            if *self.snake.head() == self.food_pt {
                self.food_pt = spawn_food(&mut self.rng, self.width_cells, self.height_cells);
                self.score = self.score + 1;
                growing = true;
            }
            if self.snake.collapsed_into_self() {
                self.state = State::GameOver;
            }
            if self.state != State::GameOver {
                self.snake.make_move(growing);
            }
        }
    }

    /// One full external tick: the tick's input events are applied first;
    /// if they confirmed the exit prompt the host is asked to terminate
    /// and nothing else happens; otherwise the simulation ticks and the
    /// counter counts. This is the one entry point a host loop needs.
    pub fn tick(&mut self, input: &Input) -> (exit: bool)
        requires
            old(self).wf(),
            old(self)@.score < usize::MAX,
            old(self)@.counter < u64::MAX,
        ensures
            final(self).wf(),
            exit == input_outcome(old(self)@, *input).1,
            exit ==> final(self)@ == input_outcome(old(self)@, *input).0,
            !exit ==> final(self)@.counter == input_outcome(old(self)@, *input).0.counter + 1,
            !exit ==> stepped_game(
                input_outcome(old(self)@, *input).0,
                (GameView { counter: input_outcome(old(self)@, *input).0.counter, ..final(self)@ }),
            ),
    {
        let exit = self.handle_input(input);
        if exit {
            return true;
        }
        self.step();
        self.inc_counter();
        proof {
            let nv = input_outcome(old(self)@, *input).0;
            if !gated(nv) {
                assert((GameView { counter: nv.counter, ..self@ }) =~= nv);
            }
        }
        false
    }

    /// Applies one tick's input events, in priority order; returns whether
    /// the host should terminate (the exit prompt was confirmed).
    pub fn handle_input(&mut self, input: &Input) -> (exit: bool)
        requires
            old(self).wf(),
        ensures
            final(self).wf(),
            final(self)@ == input_outcome(old(self)@, *input).0,
            exit == input_outcome(old(self)@, *input).1,
    {
        if input.left {
            self.snake.set_direction(Direction::Left);
            false
        } else if input.right {
            self.snake.set_direction(Direction::Right);
            false
        } else if input.up {
            self.snake.set_direction(Direction::Up);
            false
        } else if input.down {
            self.snake.set_direction(Direction::Down);
            false
        } else if input.pause && self.state == State::Running {
            self.state = State::Paused;
            false
        } else if input.confirm && self.state == State::Paused {
            self.state = State::Running;
            false
        } else if input.exit_combo && (self.state == State::Running || self.state
            == State::Paused) {
            self.state = State::PopExit;
            false
        } else if input.confirm && self.state == State::PopExit {
            true
        } else if input.cancel && self.state == State::PopExit {
            self.state = State::Running;
            false
        } else if input.confirm && self.state == State::GameOver {
            self.snake.reset();
            self.score = 0;
            self.state = State::Running;
            false
        } else {
            false
        }
    }
}

} // verus!
