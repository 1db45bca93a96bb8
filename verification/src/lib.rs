//! A grid-based snake simulation: a body of cells moves on a toroidal grid,
//! eats randomly placed food, grows on eating, and ends the round when it
//! runs into itself. The crate holds the movement and collision engine and
//! the game state machine; rendering and input polling live with the host.

pub mod grid;
pub mod body;
pub mod snake;
pub mod game;
pub mod clock;
