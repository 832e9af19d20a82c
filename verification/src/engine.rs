//! The game engine: validates a move, places the piece, looks for a
//! completed line, and keeps the state of the game.

use vstd::prelude::*;
use crate::board::{
    drop_piece, empty_grid, grid_full, grid_wf, in_grid, piece_count, Board, Grid, MoveError,
    PlayerColor,
};
use crate::lines::{lemma_drop_changes_one_cell, lemma_new_line_through_new_piece};
use crate::turn::{turn_after, TurnTracker};
use crate::winner::{check_winner, winner_at};

verus! {

/// How the game stands.
#[derive(Clone, Copy, PartialEq, Eq, Structural, Debug)]
pub enum GameResult {
    /// Moves are still accepted.
    InProgress,
    /// The given player has four in a row; the game is over.
    Win(PlayerColor),
    /// The board is full and nobody has four in a row; the game is over.
    Draw,
}

/// What an accepted move did.
#[derive(Clone, Copy, PartialEq, Eq, Structural, Debug)]
pub struct MoveOutcome {
    /// First coordinate of the column the piece was dropped on.
    pub x: usize,
    /// Second coordinate of the column the piece was dropped on.
    pub y: usize,
    /// The height at which the piece came to rest.
    pub z: usize,
    /// The colour of the piece.
    pub color: PlayerColor,
    /// How the game stands after the move.
    pub result: GameResult,
    /// The player held by the turn tracker after the move: the opponent of
    /// `color` while the game goes on, `color` itself once the game is over.
    pub to_move: PlayerColor,
}

/// The mathematical model of a game: the grid, the player to move, and how
/// the game stands.
pub struct GameState {
    pub grid: Grid,
    pub turn: PlayerColor,
    pub result: GameResult,
}

/// The state at the start of a game: an empty board, Red to move.
pub open spec fn initial_state() -> GameState {
    GameState { grid: empty_grid(), turn: PlayerColor::Red, result: GameResult::InProgress }
}

/// Why the move `(x, y)` is turned down in state `s`, or `None` if it is
/// accepted. A finished game turns down every move; then a coordinate off
/// the board is turned down, then a full column.
pub open spec fn move_error(s: GameState, x: int, y: int) -> Option<MoveError> {
    if s.result != GameResult::InProgress {
        Some(MoveError::GameAlreadyOver)
    } else if !in_grid(x, y) {
        Some(MoveError::InvalidCoordinate)
    } else if s.grid[x][y].len() >= 4 {
        Some(MoveError::ColumnFull)
    } else {
        None
    }
}

/// The state after the accepted move `(x, y)` in state `s`. The player to
/// move drops a piece on the column. If that completes four in a row the
/// player has won, and if it fills the board the game is drawn; in both
/// cases the turn stays where it is. Otherwise the turn passes to the
/// opponent.
pub open spec fn step(s: GameState, x: int, y: int) -> GameState {
    let grid = drop_piece(s.grid, x, y, s.turn);
    let z = s.grid[x][y].len() as int;
    if winner_at(grid, x, y, z) is Some {
        GameState { grid, turn: s.turn, result: GameResult::Win(s.turn) }
    } else if grid_full(grid) {
        GameState { grid, turn: s.turn, result: GameResult::Draw }
    } else {
        GameState { grid, turn: s.turn.opponent(), result: GameResult::InProgress }
    }
}

/// What the accepted move `(x, y)` in state `s` reports to the caller.
pub open spec fn outcome_of(s: GameState, x: int, y: int) -> MoveOutcome {
    MoveOutcome {
        x: x as usize,
        y: y as usize,
        z: s.grid[x][y].len() as usize,
        color: s.turn,
        result: step(s, x, y).result,
        to_move: step(s, x, y).turn,
    }
}

/// No piece on the grid stands in a line of four of its colour.
pub open spec fn no_line(g: Grid) -> bool {
    forall|x: int, y: int, z: int| (#[trigger] winner_at(g, x, y, z)) is None
}

/// What holds of every state that a game can reach.
///
/// The grid has the shape of a board. While the game is in progress the
/// board is not full, no piece stands in a line of four, and the player to
/// move is Red when the number of pieces is even, Blue when it is odd. A won
/// game holds a line of four of the winner, none of the other colour, and
/// the turn rests with the winner, who placed the last piece. A drawn game
/// has a full board without a line of four, and the turn rests with the
/// player who placed the last piece.
pub open spec fn state_wf(s: GameState) -> bool {
    &&& grid_wf(s.grid)
    &&& match s.result {
        GameResult::InProgress => {
            &&& !grid_full(s.grid)
            &&& no_line(s.grid)
            &&& s.turn == turn_after(piece_count(s.grid))
        },
        GameResult::Win(winner) => {
            &&& winner == s.turn
            &&& exists|x: int, y: int, z: int| #[trigger] winner_at(s.grid, x, y, z) == Some(winner)
            &&& forall|x: int, y: int, z: int|
                (#[trigger] winner_at(s.grid, x, y, z)) is Some ==> winner_at(s.grid, x, y, z)
                    == Some(winner)
            &&& piece_count(s.grid) >= 1
            &&& s.turn == turn_after((piece_count(s.grid) - 1) as nat)
        },
        GameResult::Draw => {
            &&& grid_full(s.grid)
            &&& no_line(s.grid)
            &&& s.turn == turn_after((piece_count(s.grid) - 1) as nat)
        },
    }
}

/// Dropping a piece on a column that has room adds one to the number of
/// pieces.
pub proof fn lemma_drop_adds_one(g: Grid, x: int, y: int, color: PlayerColor)
    requires
        grid_wf(g),
        in_grid(x, y),
    ensures
        piece_count(drop_piece(g, x, y, color)) == piece_count(g) + 1,
{
}

/// An accepted move leads from a state that a game can reach to another,
/// with one piece more on the board. In particular the game goes on only
/// where no piece anywhere stands in a line of four: looking from the new
/// piece alone misses no line.
pub proof fn lemma_step_valid(s: GameState, x: int, y: int)
    requires
        state_wf(s),
        move_error(s, x, y) is None,
    ensures
        state_wf(step(s, x, y)),
        piece_count(step(s, x, y).grid) == piece_count(s.grid) + 1,
        step(s, x, y).result is Win <==> winner_at(
            step(s, x, y).grid,
            x,
            y,
            s.grid[x][y].len() as int,
        ) == Some(s.turn),
{
    let grid = drop_piece(s.grid, x, y, s.turn);
    let z = s.grid[x][y].len() as int;
    lemma_drop_changes_one_cell(s.grid, x, y, s.turn);
    lemma_drop_adds_one(s.grid, x, y, s.turn);
    assert forall|qx: int, qy: int, qz: int| (#[trigger] winner_at(grid, qx, qy, qz)) is Some implies {
        &&& winner_at(grid, qx, qy, qz) == Some(s.turn)
        &&& winner_at(grid, x, y, z) == Some(s.turn)
    } by {
        assert(winner_at(s.grid, qx, qy, qz) is None);
        lemma_new_line_through_new_piece(s.grid, x, y, s.turn, qx, qy, qz);
    }
    if winner_at(grid, x, y, z) is Some {
        assert(winner_at(grid, x, y, z) == Some(s.turn));
    }
}

/// A game: the board, the turn tracker and the result, changed only by
/// `apply_move`.
pub struct GameEngine {
    board: Board,
    turn: TurnTracker,
    result: GameResult,
}

impl View for GameEngine {
    type V = GameState;

    closed spec fn view(&self) -> GameState {
        GameState { grid: self.board@, turn: self.turn@, result: self.result }
    }
}

impl GameEngine {
    /// The engine is in a state that a game can reach.
    pub open spec fn wf(&self) -> bool {
        state_wf(self@)
    }

    /// A new game: an empty board, Red to move.
    pub fn new() -> (engine: GameEngine)
        ensures
            engine.wf(),
            engine@ == initial_state(),
    {
        GameEngine { board: Board::new(), turn: TurnTracker::new(), result: GameResult::InProgress }
    }

    /// The board, to read heights and cells from.
    pub fn board(&self) -> (board: &Board)
        ensures
            board@ == self@.grid,
            self.wf() ==> board.wf(),
    {
        &self.board
    }

    /// The player held by the turn tracker.
    pub fn current(&self) -> (color: PlayerColor)
        ensures
            color == self@.turn,
    {
        self.turn.current()
    }

    /// How the game stands.
    pub fn result(&self) -> (result: GameResult)
        ensures
            result == self@.result,
    {
        self.result
    }

    /// Plays the move `(x, y)` for the player to move.
    ///
    /// A move is turned down, and nothing changes, when the game is over
    /// (`GameAlreadyOver`), when `(x, y)` is off the board
    /// (`InvalidCoordinate`), or when the column is full (`ColumnFull`).
    /// Otherwise the piece is placed and the new state is `step` of the old.
    pub fn apply_move(&mut self, x: usize, y: usize) -> (res: Result<MoveOutcome, MoveError>)
        requires
            old(self).wf(),
        ensures
            final(self).wf(),
            match res {
                Ok(outcome) => {
                    &&& move_error(old(self)@, x as int, y as int) is None
                    &&& final(self)@ == step(old(self)@, x as int, y as int)
                    &&& outcome == outcome_of(old(self)@, x as int, y as int)
                },
                Err(e) => {
                    &&& move_error(old(self)@, x as int, y as int) == Some(e)
                    &&& *final(self) == *old(self)
                },
            },
    {
        if self.result != GameResult::InProgress {
            return Err(MoveError::GameAlreadyOver);
        }
        proof {
            if move_error(old(self)@, x as int, y as int) is None {
                lemma_step_valid(old(self)@, x as int, y as int);
            }
        }
        let color = self.turn.current();
        let z = match self.board.push(x, y, color) {
            Ok(z) => z,
            Err(e) => {
                return Err(e);
            },
        };
        match check_winner(&self.board, (x as i8, y as i8, z as i8)) {
            Some(winner) => {
                self.result = GameResult::Win(winner);
            },
            None => {
                if self.board.is_full() {
                    self.result = GameResult::Draw;
                } else {
                    self.turn.advance();
                }
            },
        }
        Ok(MoveOutcome { x, y, z, color, result: self.result, to_move: self.turn.current() })
    }
}

impl Default for GameEngine {
    fn default() -> (engine: GameEngine)
        ensures
            engine.wf(),
            engine@ == initial_state(),
    {
        GameEngine::new()
    }
}

} // verus!
