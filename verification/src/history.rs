//! Whole games: what holds after any sequence of accepted moves.

use vstd::prelude::*;
use crate::board::{grid_wf, piece_count, MoveError, PlayerColor};
use crate::engine::{
    initial_state, lemma_step_valid, move_error, state_wf, step, GameResult, GameState,
};
use crate::turn::turn_after;

verus! {

/// The state after the moves of `moves` have been played in order from the
/// start of a game, each given as the column `(x, y)`; `None` if one of
/// them is turned down.
pub open spec fn play(moves: Seq<(int, int)>) -> Option<GameState>
    decreases moves.len(),
{
    if moves.len() == 0 {
        Some(initial_state())
    } else {
        match play(moves.drop_last()) {
            Some(s) => if move_error(s, moves.last().0, moves.last().1) is None {
                Some(step(s, moves.last().0, moves.last().1))
            } else {
                None
            },
            None => None,
        }
    }
}

/// A game starts in a state that a game can reach.
pub proof fn lemma_initial_valid()
    ensures
        state_wf(initial_state()),
{
}

/// Every state that a sequence of accepted moves leads to is one that a game
/// can reach, and holds as many pieces as moves were played; so no game has
/// more than 64 moves.
pub proof fn lemma_play_valid(moves: Seq<(int, int)>)
    requires
        play(moves) is Some,
    ensures
        state_wf(play(moves)->Some_0),
        piece_count(play(moves)->Some_0.grid) == moves.len(),
        moves.len() <= 64,
    decreases moves.len(),
{
    if moves.len() == 0 {
        lemma_initial_valid();
    } else {
        lemma_play_valid(moves.drop_last());
        let s = play(moves.drop_last())->Some_0;
        lemma_step_valid(s, moves.last().0, moves.last().1);
    }
    let g = play(moves)->Some_0.grid;
    assert(grid_wf(g));
    assert(g[0][0].len() <= 4 && g[0][1].len() <= 4 && g[0][2].len() <= 4 && g[0][3].len() <= 4);
    assert(g[1][0].len() <= 4 && g[1][1].len() <= 4 && g[1][2].len() <= 4 && g[1][3].len() <= 4);
    assert(g[2][0].len() <= 4 && g[2][1].len() <= 4 && g[2][2].len() <= 4 && g[2][3].len() <= 4);
    assert(g[3][0].len() <= 4 && g[3][1].len() <= 4 && g[3][2].len() <= 4 && g[3][3].len() <= 4);
}

/// Turns alternate, Red first: after `n` accepted moves that leave the game
/// in progress, Red is to move if `n` is even and Blue if `n` is odd.
pub proof fn lemma_turns_alternate(moves: Seq<(int, int)>)
    requires
        play(moves) is Some,
        play(moves)->Some_0.result is InProgress,
    ensures
        play(moves)->Some_0.turn == turn_after(moves.len()),
        play(moves)->Some_0.turn == PlayerColor::Red <==> moves.len() % 2 == 0,
        play(moves)->Some_0.turn == PlayerColor::Blue <==> moves.len() % 2 == 1,
{
    lemma_play_valid(moves);
}

/// The move that ends a game leaves the turn with the player who made it:
/// after `n >= 1` accepted moves of which the last wins or fills the board,
/// the turn tracker still shows the player of move `n`.
pub proof fn lemma_turn_rests_at_end(moves: Seq<(int, int)>)
    requires
        play(moves) is Some,
        !(play(moves)->Some_0.result is InProgress),
    ensures
        moves.len() >= 1,
        play(moves)->Some_0.turn == turn_after((moves.len() - 1) as nat),
        play(moves)->Some_0.result matches GameResult::Win(winner) ==> winner == turn_after(
            (moves.len() - 1) as nat,
        ),
{
    lemma_play_valid(moves);
}

/// A game that is won or drawn stays so: no move is accepted after its end,
/// whatever the column, and each is turned down as `GameAlreadyOver`.
pub proof fn lemma_no_move_after_end(moves: Seq<(int, int)>, x: int, y: int)
    requires
        play(moves) is Some,
        !(play(moves)->Some_0.result is InProgress),
    ensures
        move_error(play(moves)->Some_0, x, y) == Some(MoveError::GameAlreadyOver),
        play(moves.push((x, y))) is None,
{
    assert(moves.push((x, y)).drop_last() == moves);
}

} // verus!
