use othello::board::{Cell, GameState, Player};
use othello::rules::place_piece;

/// Placing a piece changes exactly one cell and flips the turn indicator.
#[test]
fn placement_changes_one_cell_and_flips_turn() {
    let mut s = GameState::standard_opening();
    let mut before: Vec<Cell> = Vec::new();
    for row in 0..8 {
        for col in 0..8 {
            before.push(s.board.get(row, col));
        }
    }

    place_piece(&mut s, 5, 3);
    assert_eq!(s.turn, Player::Player2);

    let mut i = 0;
    for row in 0..8 {
        for col in 0..8 {
            if (row, col) == (5, 3) {
                assert_eq!(s.board.get(row, col), Cell::Player1);
            } else {
                assert_eq!(s.board.get(row, col), before[i]);
            }
            i += 1;
        }
    }
}

/// Repeated placements write strictly alternating pieces and hand the turn
/// back and forth.
#[test]
fn repeated_placements_alternate() {
    let mut s = GameState::new_empty();
    assert_eq!(s.turn, Player::Player1);

    place_piece(&mut s, 0, 0);
    assert_eq!(s.board.get(0, 0), Cell::Player1);
    assert_eq!(s.turn, Player::Player2);

    place_piece(&mut s, 0, 1);
    assert_eq!(s.board.get(0, 1), Cell::Player2);
    assert_eq!(s.turn, Player::Player1);

    place_piece(&mut s, 0, 2);
    assert_eq!(s.board.get(0, 2), Cell::Player1);
    assert_eq!(s.turn, Player::Player2);

    place_piece(&mut s, 0, 3);
    assert_eq!(s.board.get(0, 3), Cell::Player2);
    assert_eq!(s.turn, Player::Player1);

    // the earlier pieces still stand untouched
    assert_eq!(s.board.get(0, 0), Cell::Player1);
    assert_eq!(s.board.get(0, 1), Cell::Player2);
    assert_eq!(s.board.get(0, 2), Cell::Player1);
}
