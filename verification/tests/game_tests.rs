use snake_game::game::{spawn_food, Game, Input, State};
use snake_game::snake::{Direction, Pt, Snake};

fn fresh_game() -> Game {
    let snake = Snake::new(8, 8);
    Game::new(1, 8, 8, 0, snake)
}

fn dir_input(d: Direction) -> Input {
    let mut i = Input::none();
    match d {
        Direction::Left => i.left = true,
        Direction::Right => i.right = true,
        Direction::Up => i.up = true,
        Direction::Down => i.down = true,
    }
    i
}

#[test]
fn pixel_sizes_follow_the_configuration() {
    let snake = Snake::new(32, 18);
    let g = Game::new(30, 32, 18, 50, snake);
    assert_eq!(g.width(), 960);
    assert_eq!(g.height(), 590);
}

#[test]
fn fresh_game_is_running_with_food_at_default() {
    let g = fresh_game();
    assert_eq!(g.state(), State::Running);
    assert_eq!(g.score(), 0);
    assert_eq!(g.counter(), 0);
    assert_eq!(g.food(), Pt(1, 1));
}

#[test]
fn turn_gate_fires_every_fifth_tick() {
    let mut g = fresh_game();
    for c in 0u64..=20 {
        assert_eq!(g.counter(), c);
        assert_eq!(g.should_make_move(), c % 5 == 0);
        if c < 20 {
            g.inc_counter();
        }
    }
}

#[test]
fn turn_gate_is_closed_while_not_running() {
    let mut g = fresh_game();
    let mut pause = Input::none();
    pause.pause = true;
    g.handle_input(&pause);
    assert_eq!(g.state(), State::Paused);
    assert!(!g.should_make_move());
}

#[test]
fn ungated_tick_changes_nothing() {
    let mut g = fresh_game();
    g.inc_counter();
    assert!(!g.should_make_move());
    g.step();
    assert_eq!(g.snake().draw(), vec![Pt(0, 0), Pt(1, 0), Pt(2, 0)]);
    assert_eq!(g.score(), 0);
    assert_eq!(g.food(), Pt(1, 1));
}

#[test]
fn step_onto_food_cell_grows_and_scores() {
    // Food on the head's own cell: the very first gated step eats it,
    // keeps the tail while moving, and redraws the food.
    let mut g = fresh_game();
    g.set_food(Pt(0, 0));
    g.step();
    assert_eq!(g.score(), 1);
    assert_eq!(*g.snake().head(), Pt(0, 1));
    assert_eq!(g.snake().draw(), vec![Pt(0, 1), Pt(0, 0), Pt(1, 0), Pt(2, 0)]);
    assert_eq!(g.state(), State::Running);
    let f = g.food();
    assert!(0 <= f.0 && f.0 < 8 && 0 <= f.1 && f.1 < 8);
}

#[test]
fn food_ahead_is_eaten_on_the_following_step() {
    // Food one cell below the head. The first gated step only moves onto
    // it; the step after that eats it and grows the body.
    let mut g = fresh_game();
    g.set_food(Pt(0, 1));
    g.step();
    assert_eq!(g.score(), 0);
    assert_eq!(*g.snake().head(), Pt(0, 1));
    assert_eq!(g.snake().draw(), vec![Pt(0, 1), Pt(0, 0), Pt(1, 0)]);
    assert_eq!(g.food(), Pt(0, 1));
    g.step();
    assert_eq!(g.score(), 1);
    assert_eq!(*g.snake().head(), Pt(0, 2));
    assert_eq!(g.snake().draw(), vec![Pt(0, 2), Pt(0, 1), Pt(0, 0), Pt(1, 0)]);
    let f = g.food();
    assert!(0 <= f.0 && f.0 < 8 && 0 <= f.1 && f.1 < 8);
}

#[test]
fn looping_into_the_body_ends_the_round() {
    let mut g = fresh_game();
    // Grow to five cells by eating twice, then turn in a tight loop.
    g.set_food(Pt(0, 0));
    g.step();
    g.set_food(Pt(0, 1));
    g.step();
    assert_eq!(g.snake().draw(), vec![Pt(0, 2), Pt(0, 1), Pt(0, 0), Pt(1, 0), Pt(2, 0)]);
    g.set_food(Pt(7, 7));
    g.handle_input(&dir_input(Direction::Right));
    g.step();
    g.handle_input(&dir_input(Direction::Up));
    g.step();
    g.handle_input(&dir_input(Direction::Left));
    g.step();
    // The head has just moved onto the cell its body still occupies.
    assert_eq!(g.snake().draw(), vec![Pt(0, 1), Pt(1, 1), Pt(1, 2), Pt(0, 2), Pt(0, 1)]);
    assert_eq!(g.state(), State::Running);
    // The next gated step sees the collision, ends the round and keeps the
    // body where it was.
    g.step();
    assert_eq!(g.state(), State::GameOver);
    assert_eq!(g.snake().draw(), vec![Pt(0, 1), Pt(1, 1), Pt(1, 2), Pt(0, 2), Pt(0, 1)]);
    // No further movement while the round is over.
    g.step();
    g.step();
    assert_eq!(g.snake().draw(), vec![Pt(0, 1), Pt(1, 1), Pt(1, 2), Pt(0, 2), Pt(0, 1)]);
    assert_eq!(g.score(), 2);
    // Confirming restarts the round from the initial configuration.
    let mut confirm = Input::none();
    confirm.confirm = true;
    let exit = g.handle_input(&confirm);
    assert!(!exit);
    assert_eq!(g.state(), State::Running);
    assert_eq!(g.score(), 0);
    assert_eq!(g.snake().draw(), vec![Pt(0, 0), Pt(1, 0), Pt(2, 0)]);
    assert_eq!(g.snake().direction(), Direction::Down);
}

#[test]
fn direction_keys_update_the_snake_only() {
    let mut g = fresh_game();
    let mut i = dir_input(Direction::Right);
    // A pressed direction key swallows everything else this tick.
    i.pause = true;
    let exit = g.handle_input(&i);
    assert!(!exit);
    assert_eq!(g.snake().direction(), Direction::Right);
    assert_eq!(g.state(), State::Running);
    // A reversing key leaves the direction alone.
    g.handle_input(&dir_input(Direction::Left));
    assert_eq!(g.snake().direction(), Direction::Right);
}

#[test]
fn pause_and_resume_round_trip() {
    let mut g = fresh_game();
    let mut pause = Input::none();
    pause.pause = true;
    let mut confirm = Input::none();
    confirm.confirm = true;
    g.handle_input(&pause);
    assert_eq!(g.state(), State::Paused);
    // The pause key does nothing while already paused.
    g.handle_input(&pause);
    assert_eq!(g.state(), State::Paused);
    g.handle_input(&confirm);
    assert_eq!(g.state(), State::Running);
}

#[test]
fn exit_prompt_confirms_and_cancels() {
    let mut g = fresh_game();
    let mut combo = Input::none();
    combo.exit_combo = true;
    let mut confirm = Input::none();
    confirm.confirm = true;
    let mut cancel = Input::none();
    cancel.cancel = true;
    g.handle_input(&combo);
    assert_eq!(g.state(), State::PopExit);
    // Cancelling returns to the running round.
    g.handle_input(&cancel);
    assert_eq!(g.state(), State::Running);
    // From paused the combo prompts as well; confirming asks to terminate.
    let mut pause = Input::none();
    pause.pause = true;
    g.handle_input(&pause);
    g.handle_input(&combo);
    assert_eq!(g.state(), State::PopExit);
    let exit = g.handle_input(&confirm);
    assert!(exit);
    assert_eq!(g.state(), State::PopExit);
}

#[test]
fn empty_input_changes_nothing() {
    let mut g = fresh_game();
    let exit = g.handle_input(&Input::none());
    assert!(!exit);
    assert_eq!(g.state(), State::Running);
    assert_eq!(g.snake().direction(), Direction::Down);
    assert_eq!(g.score(), 0);
}

#[test]
fn tick_combines_input_step_and_count() {
    let mut g = fresh_game();
    g.set_food(Pt(0, 0));
    // First tick: gated, the head eats the food on its own cell and moves.
    let exit = g.tick(&Input::none());
    assert!(!exit);
    assert_eq!(g.counter(), 1);
    assert_eq!(g.score(), 1);
    assert_eq!(*g.snake().head(), Pt(0, 1));
    g.set_food(Pt(7, 7));
    // Ticks 1 through 4 are blocked by the turn gate: only the counter and
    // the queued direction move.
    for c in 1u64..5 {
        assert_eq!(g.counter(), c);
        let exit = g.tick(&dir_input(Direction::Right));
        assert!(!exit);
        assert_eq!(*g.snake().head(), Pt(0, 1));
    }
    assert_eq!(g.snake().direction(), Direction::Right);
    // Tick 5 is gated again and moves the snake along the queued direction.
    g.tick(&Input::none());
    assert_eq!(*g.snake().head(), Pt(1, 1));
    assert_eq!(g.counter(), 6);
}

#[test]
fn tick_reports_a_confirmed_exit_and_stops() {
    let mut g = fresh_game();
    let mut combo = Input::none();
    combo.exit_combo = true;
    let mut confirm = Input::none();
    confirm.confirm = true;
    assert!(!g.tick(&combo));
    assert_eq!(g.state(), State::PopExit);
    let counter_before = g.counter();
    let exit = g.tick(&confirm);
    assert!(exit);
    // An exit tick changes nothing else, not even the counter.
    assert_eq!(g.state(), State::PopExit);
    assert_eq!(g.counter(), counter_before);
}

#[test]
fn spawned_food_lies_on_the_grid() {
    let mut rng = rand::rng();
    // On a one-cell grid the only possible draw is the origin.
    assert_eq!(spawn_food(&mut rng, 1, 1), Pt(0, 0));
    for _ in 0..50 {
        let p = spawn_food(&mut rng, 8, 8);
        assert!(0 <= p.0 && p.0 < 8 && 0 <= p.1 && p.1 < 8);
    }
}
