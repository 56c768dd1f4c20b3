use othello::board::{Board, Cell, GameState, Player};

/// A fresh board holds no pieces, and the first player is to move.
#[test]
fn new_empty_state_is_empty() {
    let s = GameState::new_empty();
    assert_eq!(s.turn, Player::Player1);
    for row in 0..8 {
        for col in 0..8 {
            assert_eq!(s.board.get(row, col), Cell::Empty);
        }
    }
    assert_eq!(s.board.occupied_cells(), vec![]);
}

/// `set` writes a piece into the named cell and touches no other.
#[test]
fn set_writes_a_single_cell() {
    let mut b = Board::new_empty();
    b.set(2, 5, Player::Player2);
    for row in 0..8 {
        for col in 0..8 {
            if (row, col) == (2, 5) {
                assert_eq!(b.get(row, col), Cell::Player2);
            } else {
                assert_eq!(b.get(row, col), Cell::Empty);
            }
        }
    }
}

/// The seeded opening holds exactly the four center pieces in the standard
/// alternating pattern.
#[test]
fn standard_opening_seeds_the_center() {
    let s = GameState::standard_opening();
    assert_eq!(s.turn, Player::Player1);
    for row in 0..8 {
        for col in 0..8 {
            let expected = match (row, col) {
                (3, 3) | (4, 4) => Cell::Player1,
                (4, 3) | (3, 4) => Cell::Player2,
                _ => Cell::Empty,
            };
            assert_eq!(s.board.get(row, col), expected);
        }
    }
}

/// The occupied-cell enumeration lists every piece with its cell, in grid
/// order, and nothing else.
#[test]
fn occupied_cells_lists_the_pieces_in_grid_order() {
    let s = GameState::standard_opening();
    let listed = s.board.occupied_cells();
    assert_eq!(
        listed,
        vec![
            (3, 3, Player::Player1),
            (4, 3, Player::Player2),
            (3, 4, Player::Player2),
            (4, 4, Player::Player1),
        ]
    );

    let mut b = Board::new_empty();
    b.set(7, 0, Player::Player1);
    b.set(0, 0, Player::Player2);
    b.set(0, 7, Player::Player1);
    let listed = b.occupied_cells();
    assert_eq!(
        listed,
        vec![(0, 0, Player::Player2), (7, 0, Player::Player1), (0, 7, Player::Player1)]
    );
}
