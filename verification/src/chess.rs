//! The board: ninety squares, each holding a piece or nothing.

use vstd::prelude::*;
use crate::piece::{ChessPiece, ChessType, Side};
use crate::point::{Point, on_board};

verus! {

/// The grid of ninety squares, row 0 first, nine squares to a row. The board
/// holds pieces and knows nothing of the rules.
pub struct ChessBoard(pub [ChessPiece; 90]);

/// The piece on `(row, col)` of a grid given as a sequence of ninety squares.
pub open spec fn cell(grid: Seq<ChessPiece>, row: int, col: int) -> ChessPiece {
    grid[row * 9 + col]
}

/// The kind of piece that starts in column `col` of a back rank.
pub open spec fn back_rank(col: int) -> ChessType {
    if col == 0 || col == 8 {
        ChessType::Chariot
    } else if col == 1 || col == 7 {
        ChessType::Horse
    } else if col == 2 || col == 6 {
        ChessType::Elephant
    } else if col == 3 || col == 5 {
        ChessType::Guard
    } else {
        ChessType::General
    }
}

/// What stands on `(row, col)` before the first move: Red's sixteen pieces on
/// rows 0 to 3, Black's on rows 6 to 9.
pub open spec fn opening_piece(row: int, col: int) -> ChessPiece {
    if row == 0 {
        ChessPiece(Some((back_rank(col), Side::Red)))
    } else if row == 9 {
        ChessPiece(Some((back_rank(col), Side::Black)))
    } else if row == 2 && (col == 1 || col == 7) {
        ChessPiece(Some((ChessType::Cannon, Side::Red)))
    } else if row == 7 && (col == 1 || col == 7) {
        ChessPiece(Some((ChessType::Cannon, Side::Black)))
    } else if row == 3 && col % 2 == 0 {
        ChessPiece(Some((ChessType::Soldier, Side::Red)))
    } else if row == 6 && col % 2 == 0 {
        ChessPiece(Some((ChessType::Soldier, Side::Black)))
    } else {
        ChessPiece(None)
    }
}

/// Whether `grid` is the opening position.
pub open spec fn is_opening(grid: Seq<ChessPiece>) -> bool {
    &&& grid.len() == 90
    &&& forall|row: int, col: int|
        on_board(row, col) ==> #[trigger] cell(grid, row, col) == opening_piece(row, col)
}

impl View for ChessBoard {
    type V = Seq<ChessPiece>;

    open spec fn view(&self) -> Seq<ChessPiece> {
        self.0@
    }
}

impl ChessBoard {
    /// The piece on square `p`.
    pub open spec fn at(self, p: Point) -> ChessPiece {
        cell(self@, p.row(), p.col())
    }

    /// The piece on square `p`.
    pub fn get(&self, p: Point) -> (piece: ChessPiece)
        ensures
            piece == self.at(p),
    {
        self.0[p.raw()]
    }

    /// Puts `piece` on square `p`; every other square keeps what it holds.
    pub fn set(&mut self, p: Point, piece: ChessPiece)
        ensures
            final(self)@ == old(self)@.update(p.index(), piece),
    {
        let i = p.raw();
        self.0[i] = piece;
    }

    /// The board before the first move.
    pub fn new() -> (board: ChessBoard)
        ensures
            is_opening(board@),
    {
        let mut board = ChessBoard([ChessPiece(None); 90]);
        let red = Side::Red;
        let black = Side::Black;
        board.put(0, 0, ChessType::Chariot, red);
        board.put(0, 1, ChessType::Horse, red);
        board.put(0, 2, ChessType::Elephant, red);
        board.put(0, 3, ChessType::Guard, red);
        board.put(0, 4, ChessType::General, red);
        board.put(0, 5, ChessType::Guard, red);
        board.put(0, 6, ChessType::Elephant, red);
        board.put(0, 7, ChessType::Horse, red);
        board.put(0, 8, ChessType::Chariot, red);
        board.put(2, 1, ChessType::Cannon, red);
        board.put(2, 7, ChessType::Cannon, red);
        board.put(3, 0, ChessType::Soldier, red);
        board.put(3, 2, ChessType::Soldier, red);
        board.put(3, 4, ChessType::Soldier, red);
        board.put(3, 6, ChessType::Soldier, red);
        board.put(3, 8, ChessType::Soldier, red);
        board.put(9, 0, ChessType::Chariot, black);
        board.put(9, 1, ChessType::Horse, black);
        board.put(9, 2, ChessType::Elephant, black);
        board.put(9, 3, ChessType::Guard, black);
        board.put(9, 4, ChessType::General, black);
        board.put(9, 5, ChessType::Guard, black);
        board.put(9, 6, ChessType::Elephant, black);
        board.put(9, 7, ChessType::Horse, black);
        board.put(9, 8, ChessType::Chariot, black);
        board.put(7, 1, ChessType::Cannon, black);
        board.put(7, 7, ChessType::Cannon, black);
        board.put(6, 0, ChessType::Soldier, black);
        board.put(6, 2, ChessType::Soldier, black);
        board.put(6, 4, ChessType::Soldier, black);
        board.put(6, 6, ChessType::Soldier, black);
        board.put(6, 8, ChessType::Soldier, black);
        board
    }

    /// Puts a piece of `kind` and `side` on `(row, col)`.
    fn put(&mut self, row: usize, col: usize, kind: ChessType, side: Side)
        requires
            on_board(row as int, col as int),
        ensures
            final(self)@ == old(self)@.update(row * 9 + col, ChessPiece(Some((kind, side)))),
    {
        self.0[row * 9 + col] = ChessPiece(Some((kind, side)));
    }
}

} // verus!
