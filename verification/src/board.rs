//! The board: an 8-by-8 grid of cells and the indicator of whose move is next.

use vstd::prelude::*;

verus! {

/// What one square of the grid holds.
#[derive(Clone, Copy, PartialEq, Eq, Structural, Debug)]
pub enum Cell {
    Empty,
    Player1,
    Player2,
}

/// One of the two players.
#[derive(Clone, Copy, PartialEq, Eq, Structural, Debug)]
pub enum Player {
    Player1,
    Player2,
}

impl Player {
    /// The cell value a piece of this player occupies.
    pub open spec fn spec_cell(self) -> Cell {
        match self {
            Player::Player1 => Cell::Player1,
            Player::Player2 => Cell::Player2,
        }
    }

    #[verifier::when_used_as_spec(spec_cell)]
    pub fn cell(self) -> (c: Cell)
        ensures
            c == self.spec_cell(),
    {
        match self {
            Player::Player1 => Cell::Player1,
            Player::Player2 => Cell::Player2,
        }
    }

    /// The other player.
    pub open spec fn spec_opponent(self) -> Player {
        match self {
            Player::Player1 => Player::Player2,
            Player::Player2 => Player::Player1,
        }
    }

    #[verifier::when_used_as_spec(spec_opponent)]
    pub fn opponent(self) -> (p: Player)
        ensures
            p == self.spec_opponent(),
    {
        match self {
            Player::Player1 => Player::Player2,
            Player::Player2 => Player::Player1,
        }
    }
}

/// Both coordinates lie on the 8-by-8 grid.
pub open spec fn on_board(row: int, col: int) -> bool {
    0 <= row < 8 && 0 <= col < 8
}

/// Where cell `(row, col)` sits in the flat grid: the grid is stored one
/// column after another, eight cells each.
pub open spec fn grid_index(row: int, col: int) -> int {
    col * 8 + row
}

/// A board view is well formed when it holds exactly the 64 cells of the grid.
pub open spec fn board_wf(b: Seq<Cell>) -> bool {
    b.len() == 64
}

/// The cell at `(row, col)` of a board view.
pub open spec fn cell_at(b: Seq<Cell>, row: int, col: int) -> Cell {
    b[grid_index(row, col)]
}

/// The view of a board with every cell empty.
pub open spec fn empty_board() -> Seq<Cell> {
    Seq::new(64, |i: int| Cell::Empty)
}

/// The standard opening: the four center cells taken alternately, first
/// player on the main diagonal, second player on the other, the rest empty.
pub open spec fn opening_board() -> Seq<Cell> {
    empty_board().update(grid_index(3, 3), Cell::Player1).update(
        grid_index(4, 3),
        Cell::Player2,
    ).update(grid_index(3, 4), Cell::Player2).update(grid_index(4, 4), Cell::Player1)
}

/// The `(row, col, occupant)` entries of the occupied cells among the first
/// `k` cells of the flat grid, in grid order.
pub open spec fn occupied_upto(b: Seq<Cell>, k: int) -> Seq<(usize, usize, Player)>
    decreases k,
{
    if k <= 0 {
        Seq::empty()
    } else {
        let prev = occupied_upto(b, k - 1);
        match b[k - 1] {
            Cell::Empty => prev,
            Cell::Player1 => prev.push(
                (((k - 1) % 8) as usize, ((k - 1) / 8) as usize, Player::Player1),
            ),
            Cell::Player2 => prev.push(
                (((k - 1) % 8) as usize, ((k - 1) / 8) as usize, Player::Player2),
            ),
        }
    }
}

/// Every occupied cell of the board with its occupant, in grid order.
pub open spec fn occupied_list(b: Seq<Cell>) -> Seq<(usize, usize, Player)> {
    occupied_upto(b, 64)
}

/// The 8-by-8 grid of cells.
pub struct Board {
    cells: Vec<Cell>,
}

impl View for Board {
    type V = Seq<Cell>;

    /// The grid as a flat sequence of 64 cells, indexed by `grid_index`.
    closed spec fn view(&self) -> Seq<Cell> {
        self.cells@
    }
}

impl Board {
    /// The board holds exactly the 64 cells of the grid.
    pub open spec fn wf(&self) -> bool {
        board_wf(self@)
    }

    /// A board with every cell empty.
    pub fn new_empty() -> (b: Board)
        ensures
            b.wf(),
            b@ == empty_board(),
    {
        let mut cells: Vec<Cell> = Vec::new();
        let mut i: usize = 0;
        while i < 64
            invariant
                i <= 64,
                cells@.len() == i as int,
                forall|j: int| 0 <= j < i ==> cells@[j] == Cell::Empty,
            decreases 64 - i,
        {
            cells.push(Cell::Empty);
            i = i + 1;
        }
        let b = Board { cells };
        proof {
            assert(b@ =~= empty_board());
        }
        b
    }

    /// Read the cell at `(row, col)`.
    pub fn get(&self, row: usize, col: usize) -> (c: Cell)
        requires
            self.wf(),
            row < 8,
            col < 8,
        ensures
            c == cell_at(self@, row as int, col as int),
    {
        self.cells[col * 8 + row]
    }

    /// Write a piece of `p` into `(row, col)`: the one mutator of the grid.
    /// Exactly that cell changes; the coordinates are checked against the
    /// grid bounds, never wrapped or clamped.
    pub fn set(&mut self, row: usize, col: usize, p: Player)
        requires
            old(self).wf(),
            row < 8,
            col < 8,
        ensures
            final(self).wf(),
            final(self)@ == old(self)@.update(grid_index(row as int, col as int), p.cell()),
    {
        let piece = p.cell();
        self.cells[col * 8 + row] = piece;
    }

    /// Every occupied cell with its occupant, as `(row, col, player)` entries
    /// in grid order: what a renderer reads to draw the pieces.
    pub fn occupied_cells(&self) -> (r: Vec<(usize, usize, Player)>)
        requires
            self.wf(),
        ensures
            r@ == occupied_list(self@),
    {
        let ghost b = self@;
        let mut result: Vec<(usize, usize, Player)> = Vec::new();
        let mut col: usize = 0;
        while col < 8
            invariant
                self.wf(),
                b == self@,
                col <= 8,
                result@ == occupied_upto(b, 8 * col),
            decreases 8 - col,
        {
            let mut row: usize = 0;
            while row < 8
                invariant
                    self.wf(),
                    b == self@,
                    col < 8,
                    row <= 8,
                    result@ == occupied_upto(b, 8 * col + row),
                decreases 8 - row,
            {
                let ghost k = 8 * col as int + row as int;
                let cell = self.get(row, col);
                proof {
                    assert(grid_index(row as int, col as int) == k);
                    assert(k % 8 == row as int && k / 8 == col as int) by (nonlinear_arith)
                        requires
                            k == 8 * col as int + row as int,
                            0 <= row < 8,
                            0 <= col < 8,
                    ;
                }
                match cell {
                    Cell::Empty => {},
                    Cell::Player1 => result.push((row, col, Player::Player1)),
                    Cell::Player2 => result.push((row, col, Player::Player2)),
                }
                proof {
                    assert(result@ == occupied_upto(b, k + 1));
                }
                row = row + 1;
            }
            col = col + 1;
        }
        result
    }
}

/// The whole game state: the grid together with whose move is next.
pub struct GameState {
    pub board: Board,
    pub turn: Player,
}

impl GameState {
    /// The state is well formed when its board is.
    pub open spec fn wf(&self) -> bool {
        self.board.wf()
    }

    /// An empty board with the first player to move.
    pub fn new_empty() -> (s: GameState)
        ensures
            s.wf(),
            s.board@ == empty_board(),
            s.turn == Player::Player1,
    {
        GameState { board: Board::new_empty(), turn: Player::Player1 }
    }

    /// The board seeded with the standard four-piece center opening, first
    /// player to move.
    pub fn standard_opening() -> (s: GameState)
        ensures
            s.wf(),
            s.board@ == opening_board(),
            s.turn == Player::Player1,
    {
        let mut board = Board::new_empty();
        board.set(3, 3, Player::Player1);
        board.set(4, 3, Player::Player2);
        board.set(3, 4, Player::Player2);
        board.set(4, 4, Player::Player1);
        GameState { board, turn: Player::Player1 }
    }
}

} // verus!
