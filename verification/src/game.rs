//! The board model, the rules of the game, and the game state machine.

pub mod board;
pub mod rules;
pub mod state;
pub mod types;
