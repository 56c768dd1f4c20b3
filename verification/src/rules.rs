//! The rule engine: the legality check that scans the four orthogonal
//! directions for a flank, and the placement step.
//!
//! A move is legal when the target cell is empty and, in at least one of the
//! four directions, a run of one or more opponent pieces starts right beside
//! the target cell and ends at a piece of the mover's own. Diagonals are not
//! scanned, and placement records the new piece without flipping the flanked
//! run; both are deliberate limits of this engine.

use vstd::prelude::*;

use crate::board::Board;
use crate::board::Cell;
use crate::board::GameState;
use crate::board::Player;
use crate::board::board_wf;
use crate::board::cell_at;
use crate::board::grid_index;
use crate::board::on_board;

verus! {

/// One of the four scan directions. `Left` and `Right` move along columns,
/// `Up` and `Down` along rows, toward the lower and the higher index.
#[derive(Clone, Copy, PartialEq, Eq, Structural, Debug)]
pub enum Direction {
    Up,
    Down,
    Left,
    Right,
}

/// The row reached after `k` steps from `row` in direction `d`.
pub open spec fn step_row(row: int, d: Direction, k: int) -> int {
    match d {
        Direction::Up => row - k,
        Direction::Down => row + k,
        Direction::Left => row,
        Direction::Right => row,
    }
}

/// The column reached after `k` steps from `col` in direction `d`.
pub open spec fn step_col(col: int, d: Direction, k: int) -> int {
    match d {
        Direction::Up => col,
        Direction::Down => col,
        Direction::Left => col - k,
        Direction::Right => col + k,
    }
}

/// The cell `k` steps from `(row, col)` in direction `d` still lies on the board.
pub open spec fn in_dir_on_board(row: int, col: int, d: Direction, k: int) -> bool {
    on_board(step_row(row, d, k), step_col(col, d, k))
}

/// The cell `k` steps from `(row, col)` in direction `d`.
pub open spec fn cell_in_dir(b: Seq<Cell>, row: int, col: int, d: Direction, k: int) -> Cell {
    cell_at(b, step_row(row, d, k), step_col(col, d, k))
}

/// In direction `d` from `(row, col)`: exactly `n` opponent pieces in a row,
/// starting right beside the target cell, with a piece of `mover`'s own just
/// past them. This is what makes the direction a legal flank.
pub open spec fn flank_of_length(
    b: Seq<Cell>,
    mover: Player,
    row: int,
    col: int,
    d: Direction,
    n: int,
) -> bool {
    &&& n >= 1
    &&& forall|j: int|
        1 <= j <= n ==> in_dir_on_board(row, col, d, j) && #[trigger] cell_in_dir(
            b,
            row,
            col,
            d,
            j,
        ) == mover.opponent().cell()
    &&& in_dir_on_board(row, col, d, n + 1)
    &&& cell_in_dir(b, row, col, d, n + 1) == mover.cell()
}

/// Some legal flank lies in direction `d` from `(row, col)`.
pub open spec fn flank_in_dir(b: Seq<Cell>, mover: Player, row: int, col: int, d: Direction) -> bool {
    exists|n: int| flank_of_length(b, mover, row, col, d, n)
}

/// Placing at `(row, col)` is legal for `mover`: the target cell is empty and
/// at least one of the four directions holds a flank.
pub open spec fn move_legal(b: Seq<Cell>, mover: Player, row: int, col: int) -> bool {
    &&& cell_at(b, row, col) == Cell::Empty
    &&& {
        ||| flank_in_dir(b, mover, row, col, Direction::Up)
        ||| flank_in_dir(b, mover, row, col, Direction::Down)
        ||| flank_in_dir(b, mover, row, col, Direction::Left)
        ||| flank_in_dir(b, mover, row, col, Direction::Right)
    }
}

/// The board after `mover` puts a piece on `(row, col)`: that one cell now
/// holds the piece, every other cell is as it was.
pub open spec fn place_result(b: Seq<Cell>, mover: Player, row: int, col: int) -> Seq<Cell> {
    b.update(grid_index(row, col), mover.cell())
}

/// How many steps fit on the board from `(row, col)` in direction `d` before
/// the scan would leave the grid.
pub open spec fn edge_distance(row: int, col: int, d: Direction) -> int {
    match d {
        Direction::Up => row,
        Direction::Down => 7 - row,
        Direction::Left => col,
        Direction::Right => 7 - col,
    }
}

/// One step from `(row, col)` in direction `d`, or `None` at the board's edge.
fn step(row: usize, col: usize, d: Direction) -> (r: Option<(usize, usize)>)
    requires
        row < 8,
        col < 8,
    ensures
        (match r {
            Some(next) => in_dir_on_board(row as int, col as int, d, 1) && next.0 == step_row(
                row as int,
                d,
                1,
            ) && next.1 == step_col(col as int, d, 1),
            None => !in_dir_on_board(row as int, col as int, d, 1),
        }),
{
    match d {
        Direction::Up => if row > 0 {
            Some((row - 1, col))
        } else {
            None
        },
        Direction::Down => if row < 7 {
            Some((row + 1, col))
        } else {
            None
        },
        Direction::Left => if col > 0 {
            Some((row, col - 1))
        } else {
            None
        },
        Direction::Right => if col < 7 {
            Some((row, col + 1))
        } else {
            None
        },
    }
}

/// Scan from `(row, col)` in direction `d` and report whether that direction
/// holds a legal flank for `mover`: a run of opponent pieces beside the target
/// cell, closed off by a piece of `mover`'s own. Stepping off the board, an
/// empty cell, or an own piece right beside the target all end the scan with
/// no flank.
pub fn check_direction(board: &Board, mover: Player, row: usize, col: usize, d: Direction) -> (legal:
    bool)
    requires
        board.wf(),
        row < 8,
        col < 8,
    ensures
        legal == flank_in_dir(board@, mover, row as int, col as int, d),
{
    let opp_cell = mover.opponent().cell();
    let own_cell = mover.cell();
    let ghost b = board@;
    let ghost row0 = row as int;
    let ghost col0 = col as int;
    let mut r = row;
    let mut c = col;
    let mut steps: usize = 0;
    loop
        invariant
            board.wf(),
            b == board@,
            row0 == row as int,
            col0 == col as int,
            row < 8,
            col < 8,
            r < 8,
            c < 8,
            steps <= 7,
            r as int == step_row(row0, d, steps as int),
            c as int == step_col(col0, d, steps as int),
            forall|j: int|
                1 <= j <= steps ==> in_dir_on_board(row0, col0, d, j) && #[trigger] cell_in_dir(
                    b,
                    row0,
                    col0,
                    d,
                    j,
                ) == mover.opponent().cell(),
            opp_cell == mover.opponent().cell(),
            own_cell == mover.cell(),
        decreases edge_distance(r as int, c as int, d),
    {
        match step(r, c, d) {
            None => {
                // The next cell is off the board: no run in this direction is
                // ever closed off by an own piece.
                proof {
                    assert forall|n: int| !flank_of_length(b, mover, row0, col0, d, n) by {
                        if flank_of_length(b, mover, row0, col0, d, n) {
                            if n + 1 <= steps {
                                assert(cell_in_dir(b, row0, col0, d, n + 1)
                                    == mover.opponent().cell());
                            } else if n >= steps + 1 {
                                assert(cell_in_dir(b, row0, col0, d, steps + 1)
                                    == mover.opponent().cell());
                            }
                        }
                    }
                }
                return false;
            },
            Some(next) => {
                let nr = next.0;
                let nc = next.1;
                let cell = board.get(nr, nc);
                if cell == opp_cell {
                    r = nr;
                    c = nc;
                    steps = steps + 1;
                } else if cell == own_cell {
                    if steps >= 1 {
                        // The run of opponent pieces seen so far is closed off
                        // by this own piece: a flank of length `steps`.
                        proof {
                            assert(flank_of_length(b, mover, row0, col0, d, steps as int));
                        }
                        return true;
                    } else {
                        // The cell right beside the target already belongs to
                        // the mover: no opponent piece lies in between.
                        proof {
                            assert forall|n: int| !flank_of_length(b, mover, row0, col0, d, n) by {
                                if flank_of_length(b, mover, row0, col0, d, n) {
                                    assert(cell_in_dir(b, row0, col0, d, 1)
                                        == mover.opponent().cell());
                                }
                            }
                        }
                        return false;
                    }
                } else {
                    // An empty cell ends the run before any own piece: no flank.
                    proof {
                        assert forall|n: int| !flank_of_length(b, mover, row0, col0, d, n) by {
                            if flank_of_length(b, mover, row0, col0, d, n) {
                                if n + 1 <= steps {
                                    assert(cell_in_dir(b, row0, col0, d, n + 1)
                                        == mover.opponent().cell());
                                } else if n >= steps + 1 {
                                    assert(cell_in_dir(b, row0, col0, d, steps + 1)
                                        == mover.opponent().cell());
                                } else {
                                    assert(cell_in_dir(b, row0, col0, d, n + 1) == Cell::Empty);
                                }
                            }
                        }
                    }
                    return false;
                }
            },
        }
    }
}

/// Whether `mover` may place a piece on `(row, col)`: the cell must be empty
/// and at least one of the four orthogonal directions must hold a flank. The
/// four directions are checked independently; no cell is changed.
pub fn is_move_legal(board: &Board, mover: Player, row: usize, col: usize) -> (legal: bool)
    requires
        board.wf(),
        row < 8,
        col < 8,
    ensures
        legal == move_legal(board@, mover, row as int, col as int),
{
    if !matches!(board.get(row, col), Cell::Empty) {
        return false;
    }
    check_direction(board, mover, row, col, Direction::Up) || check_direction(
        board,
        mover,
        row,
        col,
        Direction::Down,
    ) || check_direction(board, mover, row, col, Direction::Left) || check_direction(
        board,
        mover,
        row,
        col,
        Direction::Right,
    )
}

/// Put a piece of the player to move on `(row, col)` and pass the turn.
/// Exactly one cell changes, and no flanked pieces are flipped; callers gate
/// this with `is_move_legal` on the same state.
pub fn place_piece(state: &mut GameState, row: usize, col: usize)
    requires
        old(state).wf(),
        row < 8,
        col < 8,
    ensures
        final(state).wf(),
        final(state).board@ == place_result(
            old(state).board@,
            old(state).turn,
            row as int,
            col as int,
        ),
        final(state).turn == old(state).turn.opponent(),
{
    let mover = state.turn;
    state.board.set(row, col, mover);
    state.turn = mover.opponent();
}

} // verus!
