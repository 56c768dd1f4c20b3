//! Laws of the rule engine, stated and proved over the board model: what the
//! legality scan can never accept, and what placement does and does not touch.

use vstd::prelude::*;

use crate::board::Board;
use crate::board::Cell;
use crate::board::Player;
use crate::board::board_wf;
use crate::board::cell_at;
use crate::board::empty_board;
use crate::board::grid_index;
use crate::board::occupied_list;
use crate::board::occupied_upto;
use crate::board::on_board;
use crate::rules::Direction;
use crate::rules::cell_in_dir;
use crate::rules::flank_in_dir;
use crate::rules::flank_of_length;
use crate::rules::in_dir_on_board;
use crate::rules::is_move_legal;
use crate::rules::move_legal;
use crate::rules::place_result;

verus! {

/// A cell that already holds a piece is never a legal move, whatever the
/// rest of the board looks like.
pub proof fn lemma_occupied_cell_never_legal(b: Seq<Cell>, mover: Player, row: int, col: int)
    requires
        cell_at(b, row, col) != Cell::Empty,
    ensures
        !move_legal(b, mover, row, col),
{
}

/// On a board with no pieces at all, no cell is a legal move for either
/// player: a flank needs an opponent piece right beside the target cell,
/// and there is none.
pub proof fn lemma_empty_board_never_legal(mover: Player, row: int, col: int)
    requires
        on_board(row, col),
    ensures
        !move_legal(empty_board(), mover, row, col),
{
    assert forall|d: Direction, n: int| !flank_of_length(
        empty_board(),
        mover,
        row,
        col,
        d,
        n,
    ) by {
        if flank_of_length(empty_board(), mover, row, col, d, n) {
            assert(in_dir_on_board(row, col, d, 1) && cell_in_dir(empty_board(), row, col, d, 1)
                == mover.opponent().cell());
        }
    }
}

/// Toward an edge the target cell sits on, there is no flank: the very first
/// step of the scan would already leave the board.
pub proof fn lemma_edge_direction_never_flanks(
    b: Seq<Cell>,
    mover: Player,
    row: int,
    col: int,
    d: Direction,
)
    requires
        !in_dir_on_board(row, col, d, 1),
    ensures
        !flank_in_dir(b, mover, row, col, d),
{
    assert forall|n: int| !flank_of_length(b, mover, row, col, d, n) by {
        if flank_of_length(b, mover, row, col, d, n) {
            assert(cell_in_dir(b, row, col, d, 1) == mover.opponent().cell());
        }
    }
}

/// A target cell in column 0 never finds a flank scanning further left,
/// whatever the board holds and whoever moves.
pub proof fn lemma_column_zero_no_left_flank(b: Seq<Cell>, mover: Player, row: int)
    ensures
        !flank_in_dir(b, mover, row, 0, Direction::Left),
{
    lemma_edge_direction_never_flanks(b, mover, row, 0, Direction::Left);
}

/// A target cell in row 7 never finds a flank scanning further down,
/// whatever the board holds and whoever moves.
pub proof fn lemma_row_seven_no_down_flank(b: Seq<Cell>, mover: Player, col: int)
    ensures
        !flank_in_dir(b, mover, 7, col, Direction::Down),
{
    lemma_edge_direction_never_flanks(b, mover, 7, col, Direction::Down);
}

/// An opponent piece right beside the target cell closes nothing when the
/// cell just past it is empty: that direction holds no flank.
pub proof fn lemma_adjacent_opponent_without_own_piece(
    b: Seq<Cell>,
    mover: Player,
    row: int,
    col: int,
    d: Direction,
)
    requires
        cell_in_dir(b, row, col, d, 1) == mover.opponent().cell(),
        in_dir_on_board(row, col, d, 2),
        cell_in_dir(b, row, col, d, 2) == Cell::Empty,
    ensures
        !flank_in_dir(b, mover, row, col, d),
{
    assert forall|n: int| !flank_of_length(b, mover, row, col, d, n) by {
        if flank_of_length(b, mover, row, col, d, n) {
            if n >= 2 {
                assert(cell_in_dir(b, row, col, d, 2) == mover.opponent().cell());
            }
        }
    }
}

/// Placement changes exactly one cell: the target takes the mover's piece
/// and every other cell keeps its occupant.
pub proof fn lemma_place_changes_one_cell(b: Seq<Cell>, mover: Player, row: int, col: int)
    requires
        board_wf(b),
        on_board(row, col),
    ensures
        board_wf(place_result(b, mover, row, col)),
        cell_at(place_result(b, mover, row, col), row, col) == mover.cell(),
        forall|r: int, c: int|
            on_board(r, c) && !(r == row && c == col) ==> #[trigger] cell_at(
                place_result(b, mover, row, col),
                r,
                c,
            ) == cell_at(b, r, c),
{
    assert forall|r: int, c: int| on_board(r, c) && !(r == row && c == col) implies #[trigger]
    cell_at(place_result(b, mover, row, col), r, c) == cell_at(b, r, c) by {
        assert(grid_index(r, c) != grid_index(row, col));
    }
}

/// Two placements in a row write strictly alternating pieces: the first
/// writes the mover's piece, the second the opponent's, the two pieces
/// differ, and the turn is back with the first mover.
pub proof fn lemma_placements_alternate(
    b: Seq<Cell>,
    mover: Player,
    r1: int,
    c1: int,
    r2: int,
    c2: int,
)
    requires
        board_wf(b),
        on_board(r1, c1),
        on_board(r2, c2),
        !(r1 == r2 && c1 == c2),
    ensures
        ({
            let b1 = place_result(b, mover, r1, c1);
            let b2 = place_result(b1, mover.opponent(), r2, c2);
            &&& cell_at(b2, r1, c1) == mover.cell()
            &&& cell_at(b2, r2, c2) == mover.opponent().cell()
            &&& mover.opponent().cell() != mover.cell()
            &&& mover.opponent().opponent() == mover
        }),
{
    let b1 = place_result(b, mover, r1, c1);
    lemma_place_changes_one_cell(b, mover, r1, c1);
    lemma_place_changes_one_cell(b1, mover.opponent(), r2, c2);
}

/// Among the first `k` cells of the flat grid, the occupied-cell list holds
/// an entry for a cell and occupant exactly when that cell holds that
/// occupant's piece.
proof fn lemma_occupied_upto_membership(b: Seq<Cell>, k: int)
    requires
        board_wf(b),
        0 <= k <= 64,
    ensures
        forall|row: usize, col: usize, p: Player|
            #[trigger] occupied_upto(b, k).contains((row, col, p)) <==> {
                &&& row < 8
                &&& col < 8
                &&& grid_index(row as int, col as int) < k
                &&& cell_at(b, row as int, col as int) == p.cell()
            },
    decreases k,
{
    broadcast use vstd::seq_lib::lemma_seq_contains_after_push;

    if k > 0 {
        lemma_occupied_upto_membership(b, k - 1);
        let i = k - 1;
        let r = i % 8;
        let c = i / 8;
        assert(c * 8 + r == i && 0 <= r < 8 && 0 <= c < 8) by (nonlinear_arith)
            requires
                0 <= i < 64,
                r == i % 8,
                c == i / 8,
        ;
        assert(grid_index(r, c) == i);
        let prev = occupied_upto(b, i);
        let ru = r as usize;
        let cu = c as usize;
        if b[i] == Cell::Empty {
            assert(occupied_upto(b, k) == prev);
        } else if b[i] == Cell::Player1 {
            assert(occupied_upto(b, k) == prev.push((ru, cu, Player::Player1)));
        } else {
            assert(occupied_upto(b, k) == prev.push((ru, cu, Player::Player2)));
        }
        assert forall|row: usize, col: usize, p: Player|
            #[trigger] occupied_upto(b, k).contains((row, col, p)) <==> {
                &&& row < 8
                &&& col < 8
                &&& grid_index(row as int, col as int) < k
                &&& cell_at(b, row as int, col as int) == p.cell()
            } by {
            if row < 8 && col < 8 && grid_index(row as int, col as int) == i {
                // two cells with one flat index are the same cell
                assert(row as int == r && col as int == c);
                assert(cell_at(b, row as int, col as int) == b[i]);
            }
        }
    }
}

/// The board's occupied-cell list holds an entry for a cell and occupant
/// exactly when that cell holds that occupant's piece: the enumeration is
/// sound and complete.
pub proof fn lemma_occupied_list_membership(b: Seq<Cell>)
    requires
        board_wf(b),
    ensures
        forall|row: usize, col: usize, p: Player|
            #[trigger] occupied_list(b).contains((row, col, p)) <==> {
                &&& row < 8
                &&& col < 8
                &&& cell_at(b, row as int, col as int) == p.cell()
            },
{
    lemma_occupied_upto_membership(b, 64);
}

/// Checking the same cell twice on an unchanged state gives the same answer
/// both times: the legality check reads the board and mutates nothing.
pub fn is_move_legal_twice(board: &Board, mover: Player, row: usize, col: usize) -> (results: (
    bool,
    bool,
))
    requires
        board.wf(),
        row < 8,
        col < 8,
    ensures
        results.0 == results.1,
{
    let first = is_move_legal(board, mover, row, col);
    let second = is_move_legal(board, mover, row, col);
    (first, second)
}

} // verus!
