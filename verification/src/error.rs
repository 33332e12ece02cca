//! The ways a request to the engine can be refused.

use vstd::prelude::*;

verus! {

/// Why the engine refused a request. None of these ends the game or the
/// process: the caller decides what to do with them.
#[derive(Clone, Copy, Debug, PartialEq, Eq, Hash, Structural)]
pub enum MoveError {
    /// A row, column or linear index names no square of the board.
    InvalidCoordinate,
    /// The square asked about holds no piece.
    EmptySquareSelected,
    /// The piece on the first square may not go to the second.
    IllegalMove,
}

} // verus!
