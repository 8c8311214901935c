//! A fixed-tick snake game on a bounded grid.
//!
//! The crate holds the simulation only: the snake's body and how it moves,
//! wall and self collisions, food placement and eating, growth, and the
//! reset that follows a fatal move. Every function carries a contract over a
//! mathematical view of the state, and Verus proves each body against it.
//! The one thing taken on trust is the random number generator that food
//! placement draws from: of a draw only its range is assumed.

pub mod direction;
pub mod food;
pub mod game;
pub mod grid;
pub mod input;
pub mod snake;
