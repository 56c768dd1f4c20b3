//! An Othello rule engine: an 8-by-8 board of cells, a turn indicator, a
//! legality check that scans the four orthogonal directions for a flank, and
//! the placement step that records a piece and passes the turn.
//!
//! The engine knows nothing of screens, colors or input devices; a host maps
//! its own events to cells, asks the engine whether a move is legal, and reads
//! the board back to draw it.

pub mod board;
pub mod laws;
pub mod rules;
