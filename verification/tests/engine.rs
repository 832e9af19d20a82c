use score_four::{Board, GameEngine, GameResult, MoveError, MoveOutcome, PlayerColor};

/// A game that fills the board without four in a row for either player.
const DRAWN_GAME: [(usize, usize); 64] = [
    (2, 2), (2, 0), (1, 0), (1, 1), (2, 2), (0, 1), (1, 1), (3, 0),
    (3, 1), (2, 2), (1, 2), (0, 2), (2, 1), (1, 0), (0, 0), (3, 2),
    (1, 1), (3, 3), (0, 3), (3, 3), (0, 2), (1, 2), (1, 2), (0, 2),
    (1, 0), (0, 1), (1, 0), (2, 1), (2, 2), (3, 2), (3, 1), (0, 3),
    (2, 1), (1, 3), (0, 0), (0, 1), (2, 0), (3, 1), (1, 3), (1, 3),
    (3, 1), (0, 2), (0, 3), (3, 2), (2, 3), (2, 1), (3, 0), (3, 0),
    (1, 1), (1, 2), (3, 0), (2, 0), (0, 0), (0, 0), (3, 3), (3, 3),
    (0, 3), (2, 0), (3, 2), (2, 3), (0, 1), (2, 3), (2, 3), (1, 3),
];

/// Every cell of the board, column by column from the bottom up.
fn snapshot(board: &Board) -> Vec<Option<PlayerColor>> {
    let mut cells: Vec<Option<PlayerColor>> = Vec::new();
    for x in 0..4usize {
        for y in 0..4usize {
            for z in 0..4usize {
                cells.push(board.cell(x, y, z));
            }
        }
    }
    cells
}

/// A game that Red has won with a row along the bottom layer.
fn won_game() -> GameEngine {
    let mut game: GameEngine = GameEngine::new();
    for (x, y) in [(0usize, 0usize), (1, 0), (0, 1), (2, 0), (0, 2), (3, 0), (0, 3)] {
        assert!(game.apply_move(x, y).is_ok());
    }
    assert_eq!(game.result(), GameResult::Win(PlayerColor::Red));
    game
}

/// A game played to a draw.
fn drawn_game() -> GameEngine {
    let mut game: GameEngine = GameEngine::new();
    for (x, y) in DRAWN_GAME {
        assert!(game.apply_move(x, y).is_ok());
    }
    assert_eq!(game.result(), GameResult::Draw);
    game
}

#[test]
fn new_game_is_in_progress_with_red_to_move() {
    let game: GameEngine = GameEngine::new();
    assert_eq!(game.result(), GameResult::InProgress);
    assert_eq!(game.current(), PlayerColor::Red);
    assert!(snapshot(game.board()).iter().all(|cell| cell.is_none()));
    let game: GameEngine = GameEngine::default();
    assert_eq!(game.result(), GameResult::InProgress);
    assert_eq!(game.current(), PlayerColor::Red);
}

#[test]
fn first_move_reports_what_it_did() {
    let mut game: GameEngine = GameEngine::new();
    assert_eq!(
        game.apply_move(2, 3),
        Ok(MoveOutcome {
            x: 2,
            y: 3,
            z: 0,
            color: PlayerColor::Red,
            result: GameResult::InProgress,
            to_move: PlayerColor::Blue,
        })
    );
    assert_eq!(game.current(), PlayerColor::Blue);
    assert_eq!(game.board().cell(2, 3, 0), Some(PlayerColor::Red));
    assert_eq!(game.board().height(2, 3), Ok(1));
    assert_eq!(
        game.apply_move(2, 3),
        Ok(MoveOutcome {
            x: 2,
            y: 3,
            z: 1,
            color: PlayerColor::Blue,
            result: GameResult::InProgress,
            to_move: PlayerColor::Red,
        })
    );
    assert_eq!(game.board().cell(2, 3, 1), Some(PlayerColor::Blue));
}

#[test]
fn turns_alternate_starting_with_red() {
    let mut game: GameEngine = GameEngine::new();
    for (n, (x, y)) in DRAWN_GAME.iter().enumerate().take(63) {
        let expected: PlayerColor =
            if n % 2 == 0 { PlayerColor::Red } else { PlayerColor::Blue };
        assert_eq!(game.current(), expected);
        let outcome: MoveOutcome = game.apply_move(*x, *y).unwrap();
        assert_eq!(outcome.color, expected);
        assert_eq!(outcome.result, GameResult::InProgress);
        let next: PlayerColor =
            if (n + 1) % 2 == 0 { PlayerColor::Red } else { PlayerColor::Blue };
        assert_eq!(outcome.to_move, next);
        assert_eq!(game.current(), next);
    }
}

#[test]
fn rejected_moves_do_not_change_the_turn() {
    let mut game: GameEngine = GameEngine::new();
    assert!(game.apply_move(0, 0).is_ok());
    assert_eq!(game.current(), PlayerColor::Blue);
    assert_eq!(game.apply_move(0, 4), Err(MoveError::InvalidCoordinate));
    assert_eq!(game.current(), PlayerColor::Blue);
    assert!(game.apply_move(0, 0).is_ok());
    assert!(game.apply_move(0, 0).is_ok());
    assert!(game.apply_move(0, 0).is_ok());
    assert_eq!(game.current(), PlayerColor::Red);
    assert_eq!(game.apply_move(0, 0), Err(MoveError::ColumnFull));
    assert_eq!(game.current(), PlayerColor::Red);
    assert_eq!(game.result(), GameResult::InProgress);
}

#[test]
fn row_of_four_wins_for_red() {
    let mut game: GameEngine = GameEngine::new();
    let opening: [(usize, usize); 6] = [(0, 0), (1, 0), (0, 1), (2, 0), (0, 2), (3, 0)];
    for (n, (x, y)) in opening.iter().enumerate() {
        let color: PlayerColor = if n % 2 == 0 { PlayerColor::Red } else { PlayerColor::Blue };
        let to_move: PlayerColor = if n % 2 == 0 { PlayerColor::Blue } else { PlayerColor::Red };
        assert_eq!(
            game.apply_move(*x, *y),
            Ok(MoveOutcome {
                x: *x,
                y: *y,
                z: 0,
                color,
                result: GameResult::InProgress,
                to_move,
            })
        );
    }
    assert_eq!(game.result(), GameResult::InProgress);
    assert_eq!(game.current(), PlayerColor::Red);
    assert_eq!(
        game.apply_move(0, 3),
        Ok(MoveOutcome {
            x: 0,
            y: 3,
            z: 0,
            color: PlayerColor::Red,
            result: GameResult::Win(PlayerColor::Red),
            to_move: PlayerColor::Red,
        })
    );
    assert_eq!(game.result(), GameResult::Win(PlayerColor::Red));
    assert_eq!(game.current(), PlayerColor::Red);
}

#[test]
fn column_of_four_wins_for_red() {
    let mut game: GameEngine = GameEngine::new();
    let opening: [(usize, usize); 6] = [(0, 0), (1, 0), (0, 0), (2, 0), (0, 0), (3, 0)];
    for (x, y) in opening {
        assert_eq!(game.apply_move(x, y).map(|o| o.result), Ok(GameResult::InProgress));
    }
    assert_eq!(
        game.apply_move(0, 0),
        Ok(MoveOutcome {
            x: 0,
            y: 0,
            z: 3,
            color: PlayerColor::Red,
            result: GameResult::Win(PlayerColor::Red),
            to_move: PlayerColor::Red,
        })
    );
    assert_eq!(game.board().height(0, 0), Ok(4));
    for z in 0..4usize {
        assert_eq!(game.board().cell(0, 0, z), Some(PlayerColor::Red));
    }
    assert_eq!(game.current(), PlayerColor::Red);
}

#[test]
fn blue_can_win_too() {
    let mut game: GameEngine = GameEngine::new();
    let opening: [(usize, usize); 7] = [(0, 0), (3, 3), (1, 0), (3, 3), (2, 0), (3, 3), (0, 1)];
    for (x, y) in opening {
        assert_eq!(game.apply_move(x, y).map(|o| o.result), Ok(GameResult::InProgress));
    }
    assert_eq!(
        game.apply_move(3, 3),
        Ok(MoveOutcome {
            x: 3,
            y: 3,
            z: 3,
            color: PlayerColor::Blue,
            result: GameResult::Win(PlayerColor::Blue),
            to_move: PlayerColor::Blue,
        })
    );
    assert_eq!(game.result(), GameResult::Win(PlayerColor::Blue));
    assert_eq!(game.current(), PlayerColor::Blue);
}

#[test]
fn three_in_a_row_keep_the_game_going() {
    let mut game: GameEngine = GameEngine::new();
    for (x, y) in [(0usize, 0usize), (0, 1), (1, 0), (1, 1), (2, 0), (3, 0)] {
        assert_eq!(game.apply_move(x, y).map(|o| o.result), Ok(GameResult::InProgress));
    }
    assert_eq!(game.result(), GameResult::InProgress);
    assert_eq!(game.board().cell(3, 0, 0), Some(PlayerColor::Blue));
}

#[test]
fn moves_after_a_win_are_rejected() {
    let mut game: GameEngine = won_game();
    let before: Vec<Option<PlayerColor>> = snapshot(game.board());
    for x in 0..6usize {
        for y in 0..6usize {
            assert_eq!(game.apply_move(x, y), Err(MoveError::GameAlreadyOver));
            assert_eq!(game.result(), GameResult::Win(PlayerColor::Red));
            assert_eq!(game.current(), PlayerColor::Red);
            assert_eq!(snapshot(game.board()), before);
        }
    }
}

#[test]
fn full_board_without_a_line_is_a_draw() {
    let mut game: GameEngine = GameEngine::new();
    for (n, (x, y)) in DRAWN_GAME.iter().enumerate() {
        let outcome: MoveOutcome = game.apply_move(*x, *y).unwrap();
        if n < 63 {
            assert_eq!(outcome.result, GameResult::InProgress);
            assert!(!game.board().is_full());
        } else {
            assert_eq!(
                outcome,
                MoveOutcome {
                    x: 1,
                    y: 3,
                    z: 3,
                    color: PlayerColor::Blue,
                    result: GameResult::Draw,
                    to_move: PlayerColor::Blue,
                }
            );
        }
    }
    assert_eq!(game.result(), GameResult::Draw);
    assert!(game.board().is_full());
    assert_eq!(game.current(), PlayerColor::Blue);
}

#[test]
fn drawn_board_holds_no_line() {
    let game: GameEngine = drawn_game();
    for x in 0..4i8 {
        for y in 0..4i8 {
            for z in 0..4i8 {
                assert_eq!(score_four::check_winner(game.board(), (x, y, z)), None);
            }
        }
    }
    let cells: Vec<Option<PlayerColor>> = snapshot(game.board());
    assert_eq!(cells.iter().filter(|c| **c == Some(PlayerColor::Red)).count(), 32);
    assert_eq!(cells.iter().filter(|c| **c == Some(PlayerColor::Blue)).count(), 32);
}

#[test]
fn moves_after_a_draw_are_rejected() {
    let mut game: GameEngine = drawn_game();
    let before: Vec<Option<PlayerColor>> = snapshot(game.board());
    assert_eq!(game.apply_move(0, 0), Err(MoveError::GameAlreadyOver));
    assert_eq!(game.apply_move(4, 0), Err(MoveError::GameAlreadyOver));
    assert_eq!(game.apply_move(3, 3), Err(MoveError::GameAlreadyOver));
    assert_eq!(game.result(), GameResult::Draw);
    assert_eq!(game.current(), PlayerColor::Blue);
    assert_eq!(snapshot(game.board()), before);
}

#[test]
fn coordinate_off_the_board_is_rejected_on_an_empty_board() {
    let mut game: GameEngine = GameEngine::new();
    assert_eq!(game.apply_move(4, 0), Err(MoveError::InvalidCoordinate));
    assert_eq!(game.result(), GameResult::InProgress);
    assert_eq!(game.current(), PlayerColor::Red);
    assert!(snapshot(game.board()).iter().all(|cell| cell.is_none()));
}

#[test]
fn coordinate_off_the_board_is_rejected_in_mid_game() {
    let mut game: GameEngine = GameEngine::new();
    for (x, y) in DRAWN_GAME.iter().take(40) {
        assert!(game.apply_move(*x, *y).is_ok());
        let before: Vec<Option<PlayerColor>> = snapshot(game.board());
        let turn: PlayerColor = game.current();
        assert_eq!(game.apply_move(4, 0), Err(MoveError::InvalidCoordinate));
        assert_eq!(game.apply_move(0, 4), Err(MoveError::InvalidCoordinate));
        assert_eq!(game.apply_move(usize::MAX, usize::MAX), Err(MoveError::InvalidCoordinate));
        assert_eq!(snapshot(game.board()), before);
        assert_eq!(game.current(), turn);
        assert_eq!(game.result(), GameResult::InProgress);
    }
}

#[test]
fn full_column_is_rejected_and_nothing_changes() {
    let mut game: GameEngine = GameEngine::new();
    for _ in 0..2usize {
        assert!(game.apply_move(1, 1).is_ok());
        assert!(game.apply_move(1, 1).is_ok());
    }
    let before: Vec<Option<PlayerColor>> = snapshot(game.board());
    assert_eq!(game.apply_move(1, 1), Err(MoveError::ColumnFull));
    assert_eq!(snapshot(game.board()), before);
    assert_eq!(game.current(), PlayerColor::Red);
    assert_eq!(game.result(), GameResult::InProgress);
    assert!(game.apply_move(1, 2).is_ok());
    assert_eq!(game.current(), PlayerColor::Blue);
}

#[test]
fn board_can_be_rebuilt_from_heights_and_cells() {
    let mut game: GameEngine = GameEngine::new();
    for (x, y) in DRAWN_GAME.iter().take(20) {
        assert!(game.apply_move(*x, *y).is_ok());
    }
    let mut pieces: usize = 0;
    for x in 0..4usize {
        for y in 0..4usize {
            let height: usize = game.board().height(x, y).unwrap();
            for z in 0..4usize {
                assert_eq!(game.board().cell(x, y, z).is_some(), z < height);
            }
            pieces += height;
        }
    }
    assert_eq!(pieces, 20);
}
