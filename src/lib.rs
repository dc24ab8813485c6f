//! A terminal snake game: a segmented snake moves on a fixed grid, eats food
//! to grow and score, and each tick is drawn as a full frame.
//!
//! The crate holds the game's state and rules. Drawing is described as a list
//! of terminal operations (`DrawOp`), which a front end executes.
use vstd::prelude::*;

pub mod frame;
pub mod game;
pub mod input;
pub mod snake;

pub use frame::{Color, DrawOp};
pub use game::{Game, GameState};
pub use input::{Control, Key};
pub use snake::{Direction, Snake};

verus! {

/// Number of columns of the grid.
pub const WIDTH: u16 = 40;

/// Number of rows of the grid.
pub const HEIGHT: u16 = 20;

} // verus!
