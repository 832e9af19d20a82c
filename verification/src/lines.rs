//! Four in a line, stated without reference to how the scan walks, and the
//! proofs that the scan finds exactly that.

use vstd::prelude::*;
use crate::board::{cell_at, drop_piece, grid_wf, in_grid, Grid, PlayerColor};
use crate::winner::{direction, is_direction, owned, run_length, scan_hit, winner_at};

verus! {

/// The four cells that start at `(x, y, z)` and follow in steps of
/// `(dx, dy, dz)` all hold a piece of `color`.
pub open spec fn four_from(
    g: Grid,
    color: PlayerColor,
    x: int,
    y: int,
    z: int,
    dx: int,
    dy: int,
    dz: int,
) -> bool {
    &&& owned(g, color, x, y, z)
    &&& owned(g, color, x + dx, y + dy, z + dz)
    &&& owned(g, color, x + 2 * dx, y + 2 * dy, z + 2 * dz)
    &&& owned(g, color, x + 3 * dx, y + 3 * dy, z + 3 * dz)
}

/// Some four cells in a row along `(dx, dy, dz)`, all of `color`, include
/// `(x, y, z)`: as the first, second, third or fourth of them.
pub open spec fn line_through(
    g: Grid,
    color: PlayerColor,
    x: int,
    y: int,
    z: int,
    dx: int,
    dy: int,
    dz: int,
) -> bool {
    ||| four_from(g, color, x, y, z, dx, dy, dz)
    ||| four_from(g, color, x - dx, y - dy, z - dz, dx, dy, dz)
    ||| four_from(g, color, x - 2 * dx, y - 2 * dy, z - 2 * dz, dx, dy, dz)
    ||| four_from(g, color, x - 3 * dx, y - 3 * dy, z - 3 * dz, dx, dy, dz)
}

/// `(dx, dy, dz)` is an entry of the direction table.
pub open spec fn in_table(dx: int, dy: int, dz: int) -> bool {
    exists|i: int| 0 <= i < 13 && #[trigger] direction(i) == (dx, dy, dz)
}

/// The direction table holds one step for each line through a lattice point
/// and no more: each entry is a step to a neighbour, and of every such step
/// `d` exactly one of `d` and `-d` is an entry.
pub proof fn lemma_direction_table(dx: int, dy: int, dz: int)
    ensures
        in_table(dx, dy, dz) ==> is_direction(dx, dy, dz),
        is_direction(dx, dy, dz) ==> (in_table(dx, dy, dz) <==> !in_table(-dx, -dy, -dz)),
{
    assert(direction(0) == (0int, 0int, 1int));
    assert(direction(1) == (0int, 1int, -1int));
    assert(direction(2) == (0int, 1int, 0int));
    assert(direction(3) == (0int, 1int, 1int));
    assert(direction(4) == (1int, -1int, -1int));
    assert(direction(5) == (1int, -1int, 0int));
    assert(direction(6) == (1int, -1int, 1int));
    assert(direction(7) == (1int, 0int, -1int));
    assert(direction(8) == (1int, 0int, 0int));
    assert(direction(9) == (1int, 0int, 1int));
    assert(direction(10) == (1int, 1int, -1int));
    assert(direction(11) == (1int, 1int, 0int));
    assert(direction(12) == (1int, 1int, 1int));
}

/// No step stands twice in the direction table: its thirteen entries name
/// thirteen different lines.
pub proof fn lemma_table_entries_distinct(i: int, j: int)
    requires
        0 <= i < 13,
        0 <= j < 13,
        direction(i) == direction(j),
    ensures
        i == j,
{
    lemma_direction_table(0, 0, 1);
}

/// A run is of four or more exactly when four cells in a row, all of the
/// colour, include the cell: three of a colour next to a gap or a piece of
/// the other colour are no run of four, and four are.
pub proof fn lemma_run_iff_line(
    g: Grid,
    color: PlayerColor,
    x: int,
    y: int,
    z: int,
    dx: int,
    dy: int,
    dz: int,
)
    requires
        owned(g, color, x, y, z),
    ensures
        run_length(g, color, x, y, z, dx, dy, dz) >= 4 <==> line_through(
            g,
            color,
            x,
            y,
            z,
            dx,
            dy,
            dz,
        ),
{
}

/// On a board of edge four no run along a line is longer than four.
pub proof fn lemma_run_at_most_four(
    g: Grid,
    color: PlayerColor,
    x: int,
    y: int,
    z: int,
    dx: int,
    dy: int,
    dz: int,
)
    requires
        grid_wf(g),
        owned(g, color, x, y, z),
        is_direction(dx, dy, dz),
    ensures
        run_length(g, color, x, y, z, dx, dy, dz) <= 4,
{
}

/// The scan finds a run through a cell along every line, whichever way the
/// line is named: if the run through `(x, y, z)` along a step to a neighbour
/// is of four or more, the piece there wins.
pub proof fn lemma_run_wins(
    g: Grid,
    color: PlayerColor,
    x: int,
    y: int,
    z: int,
    dx: int,
    dy: int,
    dz: int,
)
    requires
        owned(g, color, x, y, z),
        is_direction(dx, dy, dz),
        run_length(g, color, x, y, z, dx, dy, dz) >= 4,
    ensures
        winner_at(g, x, y, z) == Some(color),
{
    lemma_direction_table(dx, dy, dz);
    if in_table(dx, dy, dz) {
        let i = choose|i: int| 0 <= i < 13 && #[trigger] direction(i) == (dx, dy, dz);
        assert(scan_hit(g, x, y, z, i));
    } else {
        let i = choose|i: int| 0 <= i < 13 && #[trigger] direction(i) == (-dx, -dy, -dz);
        assert(run_length(g, color, x, y, z, -dx, -dy, -dz) == run_length(
            g,
            color,
            x,
            y,
            z,
            dx,
            dy,
            dz,
        ));
        assert(scan_hit(g, x, y, z, i));
    }
}

/// Detection does not depend on the cell it starts from: where four cells in
/// a row, in any of the 26 directions, hold one colour, the scan from each
/// of the four, the two ends among them, reports that colour.
pub proof fn lemma_line_detected(
    g: Grid,
    color: PlayerColor,
    x: int,
    y: int,
    z: int,
    dx: int,
    dy: int,
    dz: int,
)
    requires
        is_direction(dx, dy, dz),
        four_from(g, color, x, y, z, dx, dy, dz),
    ensures
        winner_at(g, x, y, z) == Some(color),
        winner_at(g, x + dx, y + dy, z + dz) == Some(color),
        winner_at(g, x + 2 * dx, y + 2 * dy, z + 2 * dz) == Some(color),
        winner_at(g, x + 3 * dx, y + 3 * dy, z + 3 * dz) == Some(color),
{
    lemma_run_iff_line(g, color, x, y, z, dx, dy, dz);
    lemma_run_wins(g, color, x, y, z, dx, dy, dz);
    lemma_run_iff_line(g, color, x + dx, y + dy, z + dz, dx, dy, dz);
    lemma_run_wins(g, color, x + dx, y + dy, z + dz, dx, dy, dz);
    lemma_run_iff_line(g, color, x + 2 * dx, y + 2 * dy, z + 2 * dz, dx, dy, dz);
    lemma_run_wins(g, color, x + 2 * dx, y + 2 * dy, z + 2 * dz, dx, dy, dz);
    lemma_run_iff_line(g, color, x + 3 * dx, y + 3 * dy, z + 3 * dz, dx, dy, dz);
    lemma_run_wins(g, color, x + 3 * dx, y + 3 * dy, z + 3 * dz, dx, dy, dz);
}

/// Some line of four cells of `color` passes through `(x, y, z)`.
pub open spec fn on_winning_line(g: Grid, color: PlayerColor, x: int, y: int, z: int) -> bool {
    exists|dx: int, dy: int, dz: int|
        is_direction(dx, dy, dz) && #[trigger] line_through(g, color, x, y, z, dx, dy, dz)
}

/// What the scan reports: a colour wins at a cell exactly when the cell lies
/// on a line of four cells of that colour. A shorter run, ended by a gap, by
/// a piece of the other colour or by the edge of the board, does not win.
pub proof fn lemma_winner_iff_line(g: Grid, color: PlayerColor, x: int, y: int, z: int)
    ensures
        winner_at(g, x, y, z) == Some(color) <==> on_winning_line(g, color, x, y, z),
{
    if winner_at(g, x, y, z) == Some(color) {
        let i = choose|i: int| 0 <= i < 13 && #[trigger] scan_hit(g, x, y, z, i);
        let d = direction(i);
        assert(in_table(d.0, d.1, d.2));
        lemma_direction_table(d.0, d.1, d.2);
        lemma_run_iff_line(g, color, x, y, z, d.0, d.1, d.2);
        assert(line_through(g, color, x, y, z, d.0, d.1, d.2));
    }
    if on_winning_line(g, color, x, y, z) {
        let (dx, dy, dz) = choose|dx: int, dy: int, dz: int|
            is_direction(dx, dy, dz) && #[trigger] line_through(g, color, x, y, z, dx, dy, dz);
        assert(owned(g, color, x, y, z));
        lemma_run_iff_line(g, color, x, y, z, dx, dy, dz);
        lemma_run_wins(g, color, x, y, z, dx, dy, dz);
    }
}

/// Dropping a piece changes the cell it lands in and no other.
pub proof fn lemma_drop_changes_one_cell(g: Grid, x: int, y: int, color: PlayerColor)
    requires
        grid_wf(g),
        in_grid(x, y),
        g[x][y].len() < 4,
    ensures
        grid_wf(drop_piece(g, x, y, color)),
        cell_at(drop_piece(g, x, y, color), x, y, g[x][y].len() as int) == Some(color),
        cell_at(g, x, y, g[x][y].len() as int) is None,
        forall|i: int, j: int, k: int|
            !(i == x && j == y && k == g[x][y].len()) ==> #[trigger] cell_at(
                drop_piece(g, x, y, color),
                i,
                j,
                k,
            ) == cell_at(g, i, j, k),
{
    let after = drop_piece(g, x, y, color);
    assert forall|i: int, j: int| in_grid(i, j) implies (#[trigger] after[i][j]).len() <= 4 by {
        if i == x && j == y {
        } else {
            assert(after[i][j] == g[i][j]);
        }
    }
    assert forall|i: int, j: int, k: int|
        !(i == x && j == y && k == g[x][y].len()) implies #[trigger] cell_at(after, i, j, k)
        == cell_at(g, i, j, k) by {
        if in_grid(i, j) {
            if i == x && j == y {
            } else {
                assert(after[i][j] == g[i][j]);
            }
        }
    }
}

/// A line that a move completes passes through the piece just placed, and
/// is of its colour. So where no piece stood in a line of four before the
/// move, looking from the new piece alone finds every line there is
/// afterwards: if any cell wins after the move, the new piece wins.
pub proof fn lemma_new_line_through_new_piece(
    g: Grid,
    x: int,
    y: int,
    color: PlayerColor,
    qx: int,
    qy: int,
    qz: int,
)
    requires
        grid_wf(g),
        in_grid(x, y),
        g[x][y].len() < 4,
        winner_at(g, qx, qy, qz) is None,
        winner_at(drop_piece(g, x, y, color), qx, qy, qz) is Some,
    ensures
        winner_at(drop_piece(g, x, y, color), qx, qy, qz) == Some(color),
        winner_at(drop_piece(g, x, y, color), x, y, g[x][y].len() as int) == Some(color),
{
    let after = drop_piece(g, x, y, color);
    let z = g[x][y].len() as int;
    let found = winner_at(after, qx, qy, qz)->Some_0;
    lemma_drop_changes_one_cell(g, x, y, color);
    lemma_winner_iff_line(after, found, qx, qy, qz);
    lemma_winner_iff_line(g, found, qx, qy, qz);
    let (dx, dy, dz) = choose|dx: int, dy: int, dz: int|
        is_direction(dx, dy, dz) && #[trigger] line_through(after, found, qx, qy, qz, dx, dy, dz);
    // The first cell of the line of four that holds (qx, qy, qz).
    let (sx, sy, sz) = if four_from(after, found, qx, qy, qz, dx, dy, dz) {
        (qx, qy, qz)
    } else if four_from(after, found, qx - dx, qy - dy, qz - dz, dx, dy, dz) {
        (qx - dx, qy - dy, qz - dz)
    } else if four_from(after, found, qx - 2 * dx, qy - 2 * dy, qz - 2 * dz, dx, dy, dz) {
        (qx - 2 * dx, qy - 2 * dy, qz - 2 * dz)
    } else {
        (qx - 3 * dx, qy - 3 * dy, qz - 3 * dz)
    };
    assert(four_from(after, found, sx, sy, sz, dx, dy, dz));
    let new_on_line = (sx == x && sy == y && sz == z) || (sx + dx == x && sy + dy == y && sz + dz
        == z) || (sx + 2 * dx == x && sy + 2 * dy == y && sz + 2 * dz == z) || (sx + 3 * dx == x
        && sy + 3 * dy == y && sz + 3 * dz == z);
    if new_on_line {
        assert(found == color);
        lemma_line_detected(after, color, sx, sy, sz, dx, dy, dz);
    } else {
        assert(four_from(g, found, sx, sy, sz, dx, dy, dz));
        assert(line_through(g, found, qx, qy, qz, dx, dy, dz));
        assert(false);
    }
}

} // verus!
