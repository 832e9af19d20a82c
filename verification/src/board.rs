//! The board: sixteen columns on a 4×4 grid, each a stack of at most four
//! pieces.

use vstd::prelude::*;

verus! {

/// The owner of a piece: one of the two players.
#[derive(Clone, Copy, PartialEq, Eq, Structural, Debug)]
pub enum PlayerColor {
    Red,
    Blue,
}

/// Why a move was turned down.
#[derive(Clone, Copy, PartialEq, Eq, Structural, Debug)]
pub enum MoveError {
    /// The column coordinate lies outside the 4×4 grid.
    InvalidCoordinate,
    /// The column already holds four pieces.
    ColumnFull,
    /// The game has ended in a win or a draw.
    GameAlreadyOver,
}

/// The number of columns along each edge of the board, and the number of
/// pieces a column can hold.
pub const SIZE: usize = 4;

/// The mathematical model of a board: `g[x][y]` is the column at `(x, y)`,
/// listed from the bottom up, so `g[x][y][z]` is the piece at height `z`.
pub type Grid = Seq<Seq<Seq<PlayerColor>>>;

impl PlayerColor {
    /// The other player.
    pub open spec fn opponent(self) -> PlayerColor {
        match self {
            PlayerColor::Red => PlayerColor::Blue,
            PlayerColor::Blue => PlayerColor::Red,
        }
    }
}

/// `(x, y)` names one of the sixteen columns.
pub open spec fn in_grid(x: int, y: int) -> bool {
    0 <= x < 4 && 0 <= y < 4
}

/// A grid has the shape of a board: 4×4 columns, none higher than four.
pub open spec fn grid_wf(g: Grid) -> bool {
    &&& g.len() == 4
    &&& forall|x: int| 0 <= x < 4 ==> (#[trigger] g[x]).len() == 4
    &&& forall|x: int, y: int| in_grid(x, y) ==> (#[trigger] g[x][y]).len() <= 4
}

/// The grid with no piece on it.
pub open spec fn empty_grid() -> Grid {
    Seq::new(4, |x: int| Seq::new(4, |y: int| Seq::<PlayerColor>::empty()))
}

/// The piece at `(x, y, z)`, if the coordinate is on the board and the column
/// reaches that high.
pub open spec fn cell_at(g: Grid, x: int, y: int, z: int) -> Option<PlayerColor> {
    if in_grid(x, y) && 0 <= z < g[x][y].len() {
        Some(g[x][y][z])
    } else {
        None
    }
}

/// The grid after `color` has been dropped onto column `(x, y)`.
pub open spec fn drop_piece(g: Grid, x: int, y: int, color: PlayerColor) -> Grid {
    g.update(x, g[x].update(y, g[x][y].push(color)))
}

/// Every column holds four pieces.
pub open spec fn grid_full(g: Grid) -> bool {
    forall|x: int, y: int| in_grid(x, y) ==> (#[trigger] g[x][y]).len() == 4
}

/// The number of pieces in the four columns of one row of the grid.
pub open spec fn row_count(row: Seq<Seq<PlayerColor>>) -> nat {
    row[0].len() + row[1].len() + row[2].len() + row[3].len()
}

/// The number of pieces on the grid.
pub open spec fn piece_count(g: Grid) -> nat {
    row_count(g[0]) + row_count(g[1]) + row_count(g[2]) + row_count(g[3])
}

/// The 4×4×4 piece storage.
pub struct Board {
    columns: [[Vec<PlayerColor>; 4]; 4],
}

impl View for Board {
    type V = Grid;

    closed spec fn view(&self) -> Grid {
        Seq::new(4, |x: int| Seq::new(4, |y: int| self.columns[x][y]@))
    }
}

impl Board {
    /// No column is higher than four.
    pub open spec fn wf(&self) -> bool {
        grid_wf(self@)
    }

    /// A board with no piece on it.
    pub fn new() -> (board: Board)
        ensures
            board.wf(),
            board@ == empty_grid(),
    {
        let board = Board {
            columns: [
                [Vec::new(), Vec::new(), Vec::new(), Vec::new()],
                [Vec::new(), Vec::new(), Vec::new(), Vec::new()],
                [Vec::new(), Vec::new(), Vec::new(), Vec::new()],
                [Vec::new(), Vec::new(), Vec::new(), Vec::new()],
            ],
        };
        assert(board@ =~~= empty_grid());
        board
    }

    /// The number of pieces stacked on column `(x, y)`, or
    /// `InvalidCoordinate` when `(x, y)` is not a column of the board.
    pub fn height(&self, x: usize, y: usize) -> (res: Result<usize, MoveError>)
        requires
            self.wf(),
        ensures
            in_grid(x as int, y as int) ==> res == Ok::<usize, MoveError>(
                self@[x as int][y as int].len() as usize,
            ),
            !in_grid(x as int, y as int) ==> res == Err::<usize, MoveError>(
                MoveError::InvalidCoordinate,
            ),
            res matches Ok(h) ==> h <= 4,
    {
        if x >= SIZE || y >= SIZE {
            return Err(MoveError::InvalidCoordinate);
        }
        assert(self@[x as int][y as int] == self.columns[x as int][y as int]@);
        Ok(self.columns[x][y].len())
    }

    /// The colour of the piece at height `z` of column `(x, y)`; `None` when
    /// the column does not reach that high or the coordinate is off the board.
    pub fn cell(&self, x: usize, y: usize, z: usize) -> (res: Option<PlayerColor>)
        requires
            self.wf(),
        ensures
            res == cell_at(self@, x as int, y as int, z as int),
    {
        if x >= SIZE || y >= SIZE {
            return None;
        }
        let column = &self.columns[x][y];
        if z < column.len() {
            Some(column[z])
        } else {
            None
        }
    }

    /// Puts `color` on top of column `(x, y)` and returns the height at which
    /// it came to rest. A coordinate off the board or a column that already
    /// holds four pieces is turned down, and the board stays as it was.
    pub fn push(&mut self, x: usize, y: usize, color: PlayerColor) -> (res: Result<
        usize,
        MoveError,
    >)
        requires
            old(self).wf(),
        ensures
            final(self).wf(),
            !in_grid(x as int, y as int) ==> res == Err::<usize, MoveError>(
                MoveError::InvalidCoordinate,
            ),
            in_grid(x as int, y as int) && old(self)@[x as int][y as int].len() == 4 ==> res
                == Err::<usize, MoveError>(MoveError::ColumnFull),
            in_grid(x as int, y as int) && old(self)@[x as int][y as int].len() < 4 ==> res
                == Ok::<usize, MoveError>(old(self)@[x as int][y as int].len() as usize),
            res is Err ==> *final(self) == *old(self),
            res is Ok ==> final(self)@ == drop_piece(old(self)@, x as int, y as int, color),
            res is Ok ==> final(self)@[x as int][y as int].len() == old(self)@[x as int][y as int].len()
                + 1,
    {
        if x >= SIZE || y >= SIZE {
            return Err(MoveError::InvalidCoordinate);
        }
        let z = self.columns[x][y].len();
        if z >= SIZE {
            return Err(MoveError::ColumnFull);
        }
        self.columns[x][y].push(color);
        assert(final(self)@ =~~= drop_piece(old(self)@, x as int, y as int, color));
        Ok(z)
    }

    /// Whether all sixteen columns hold four pieces.
    pub fn is_full(&self) -> (full: bool)
        requires
            self.wf(),
        ensures
            full == grid_full(self@),
    {
        let mut x: usize = 0;
        while x < SIZE
            invariant
                x <= 4,
                forall|i: int, j: int| 0 <= i < x && 0 <= j < 4 ==> (#[trigger] self@[i][j]).len() == 4,
            decreases 4 - x,
        {
            let mut y: usize = 0;
            while y < SIZE
                invariant
                    x < 4,
                    y <= 4,
                    forall|i: int, j: int|
                        0 <= i < x && 0 <= j < 4 ==> (#[trigger] self@[i][j]).len() == 4,
                    forall|j: int| 0 <= j < y ==> (#[trigger] self@[x as int][j]).len() == 4,
                decreases 4 - y,
            {
                if self.columns[x][y].len() != SIZE {
                    assert(self@[x as int][y as int].len() != 4);
                    return false;
                }
                y += 1;
            }
            x += 1;
        }
        true
    }
}

impl Default for Board {
    fn default() -> (board: Board)
        ensures
            board.wf(),
            board@ == empty_grid(),
    {
        Board::new()
    }
}

} // verus!
