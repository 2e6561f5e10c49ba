//! A two-player tic-tac-toe session with a navigable, branching history of
//! board snapshots and a win detector over the eight fixed lines.

pub mod square;
pub mod winner;
pub mod game;

pub use game::{Message, TicTacToe};
pub use square::SquareValue;
pub use winner::{calculate_winner, SquareArray};
