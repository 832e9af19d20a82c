//! A three-dimensional four-in-a-row game on a 4×4 grid of columns, each
//! holding up to four stacked pieces.
//!
//! The crate is the game's rule engine: the board and its legal moves, the
//! alternation of turns, the scan that detects a completed line through the
//! piece just placed, and the engine that ties them together. Every function
//! carries a contract over a mathematical model of the board (a grid of
//! columns, each a sequence of colours from the bottom up).

pub mod board;
pub mod turn;
pub mod winner;
pub mod lines;
pub mod engine;
pub mod history;

pub use board::{Board, MoveError, PlayerColor};
pub use engine::{GameEngine, GameResult, MoveOutcome};
pub use turn::TurnTracker;
pub use winner::check_winner;
