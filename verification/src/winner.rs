//! Detection of a completed line through the piece just placed.

use vstd::prelude::*;
use crate::board::{cell_at, Board, Grid, PlayerColor};

verus! {

/// One step along each of the thirteen lines through a lattice point: every
/// non-zero vector with components in {-1, 0, 1}, one of each pair `d`, `-d`.
pub const DIRECTIONS: [(i8, i8, i8); 13] = [
    (0, 0, 1),
    (0, 1, -1),
    (0, 1, 0),
    (0, 1, 1),
    (1, -1, -1),
    (1, -1, 0),
    (1, -1, 1),
    (1, 0, -1),
    (1, 0, 0),
    (1, 0, 1),
    (1, 1, -1),
    (1, 1, 0),
    (1, 1, 1),
];

/// The `i`-th entry of the direction table, as mathematical integers.
pub open spec fn direction(i: int) -> (int, int, int) {
    (DIRECTIONS[i].0 as int, DIRECTIONS[i].1 as int, DIRECTIONS[i].2 as int)
}

/// `(dx, dy, dz)` is a step to one of the 26 neighbours of a lattice point.
pub open spec fn is_direction(dx: int, dy: int, dz: int) -> bool {
    &&& -1 <= dx <= 1
    &&& -1 <= dy <= 1
    &&& -1 <= dz <= 1
    &&& !(dx == 0 && dy == 0 && dz == 0)
}

/// The cell `(x, y, z)` holds a piece of `color`.
pub open spec fn owned(g: Grid, color: PlayerColor, x: int, y: int, z: int) -> bool {
    cell_at(g, x, y, z) == Some(color)
}

/// How many pieces of `color` follow `(x, y, z)` without a break when walking
/// in steps of `(dx, dy, dz)`. The walk ends at the first cell that is off
/// the board, empty, or of the other colour; the start itself is not counted.
/// On a board of edge four no walk takes more than three steps.
pub open spec fn reach(
    g: Grid,
    color: PlayerColor,
    x: int,
    y: int,
    z: int,
    dx: int,
    dy: int,
    dz: int,
) -> nat {
    if !owned(g, color, x + dx, y + dy, z + dz) {
        0
    } else if !owned(g, color, x + 2 * dx, y + 2 * dy, z + 2 * dz) {
        1
    } else if !owned(g, color, x + 3 * dx, y + 3 * dy, z + 3 * dz) {
        2
    } else {
        3
    }
}

/// The length of the unbroken run of `color` through `(x, y, z)` along the
/// line of direction `(dx, dy, dz)`: the cell itself and what follows it on
/// either side.
pub open spec fn run_length(
    g: Grid,
    color: PlayerColor,
    x: int,
    y: int,
    z: int,
    dx: int,
    dy: int,
    dz: int,
) -> nat {
    1 + reach(g, color, x, y, z, dx, dy, dz) + reach(g, color, x, y, z, -dx, -dy, -dz)
}

/// The piece at `(x, y, z)` stands in a run of four or more of its colour
/// along the `i`-th direction of the table.
pub open spec fn scan_hit(g: Grid, x: int, y: int, z: int, i: int) -> bool {
    run_length(g, g[x][y][z], x, y, z, direction(i).0, direction(i).1, direction(i).2) >= 4
}

/// The colour that has four in a row through `(x, y, z)`: the colour of the
/// piece there, if along one of the thirteen directions it stands in a run of
/// four or more; `None` if no direction gives such a run or the cell holds no
/// piece.
pub open spec fn winner_at(g: Grid, x: int, y: int, z: int) -> Option<PlayerColor> {
    if cell_at(g, x, y, z) is Some && exists|i: int| 0 <= i < 13 && #[trigger] scan_hit(g, x, y, z, i) {
        cell_at(g, x, y, z)
    } else {
        None
    }
}

/// Walks from `start` in steps of `step` and counts the pieces of `color`
/// met before the first cell that is off the board, empty, or of the other
/// colour.
fn count_along(board: &Board, color: PlayerColor, start: (i8, i8, i8), step: (i8, i8, i8)) -> (n: u8)
    requires
        board.wf(),
        0 <= start.0 <= 3,
        0 <= start.1 <= 3,
        0 <= start.2 <= 3,
        is_direction(step.0 as int, step.1 as int, step.2 as int),
    ensures
        n == reach(
            board@,
            color,
            start.0 as int,
            start.1 as int,
            start.2 as int,
            step.0 as int,
            step.1 as int,
            step.2 as int,
        ),
{
    let mut n: u8 = 0;
    let mut point = start;
    loop
        invariant_except_break
            board.wf(),
            0 <= start.0 <= 3,
            0 <= start.1 <= 3,
            0 <= start.2 <= 3,
            is_direction(step.0 as int, step.1 as int, step.2 as int),
            n <= 3,
            point.0 == start.0 + n * step.0,
            point.1 == start.1 + n * step.1,
            point.2 == start.2 + n * step.2,
            0 <= point.0 <= 3,
            0 <= point.1 <= 3,
            0 <= point.2 <= 3,
            n >= 1 ==> owned(
                board@,
                color,
                start.0 + step.0,
                start.1 + step.1,
                start.2 + step.2,
            ),
            n >= 2 ==> owned(
                board@,
                color,
                start.0 + 2 * step.0,
                start.1 + 2 * step.1,
                start.2 + 2 * step.2,
            ),
            n >= 3 ==> owned(
                board@,
                color,
                start.0 + 3 * step.0,
                start.1 + 3 * step.1,
                start.2 + 3 * step.2,
            ),
        ensures
            n == reach(
                board@,
                color,
                start.0 as int,
                start.1 as int,
                start.2 as int,
                step.0 as int,
                step.1 as int,
                step.2 as int,
            ),
        decreases 3 - n,
    {
        assert(n == 0 || n == 1 || n == 2 || n == 3);
        let x: i8 = point.0 + step.0;
        if x < 0 || x > 3 {
            break;
        }
        let y: i8 = point.1 + step.1;
        if y < 0 || y > 3 {
            break;
        }
        let z: i8 = point.2 + step.2;
        if z < 0 {
            break;
        }
        match board.cell(x as usize, y as usize, z as usize) {
            Some(found) => {
                if found != color {
                    break;
                }
            },
            None => {
                break;
            },
        }
        n += 1;
        point = (x, y, z);
    }
    n
}

/// Tells whether the piece at `last` completes four in a row. The thirteen
/// lines through `last` are scanned in both directions from it, and the
/// colour of the piece is returned as soon as one of them holds a run of four
/// or more; a gap or a piece of the other colour ends a run. Where `last`
/// holds no piece there is no winner.
pub fn check_winner(board: &Board, last: (i8, i8, i8)) -> (winner: Option<PlayerColor>)
    requires
        board.wf(),
    ensures
        winner == winner_at(board@, last.0 as int, last.1 as int, last.2 as int),
{
    if last.0 < 0 || last.0 > 3 || last.1 < 0 || last.1 > 3 || last.2 < 0 {
        return None;
    }
    let color = match board.cell(last.0 as usize, last.1 as usize, last.2 as usize) {
        Some(color) => color,
        None => {
            return None;
        },
    };
    let mut i: usize = 0;
    while i < 13
        invariant
            board.wf(),
            i <= 13,
            0 <= last.0 <= 3,
            0 <= last.1 <= 3,
            0 <= last.2 <= 3,
            cell_at(board@, last.0 as int, last.1 as int, last.2 as int) == Some(color),
            forall|j: int|
                0 <= j < i ==> !#[trigger] scan_hit(
                    board@,
                    last.0 as int,
                    last.1 as int,
                    last.2 as int,
                    j,
                ),
        decreases 13 - i,
    {
        let step = DIRECTIONS[i];
        let forward = count_along(board, color, last, step);
        let backward = count_along(board, color, last, (-step.0, -step.1, -step.2));
        if 1 + forward + backward >= 4 {
            assert(scan_hit(board@, last.0 as int, last.1 as int, last.2 as int, i as int));
            return Some(color);
        }
        i += 1;
    }
    None
}

} // verus!
