//! Pieces: what kind a piece is and which side owns it.

use vstd::prelude::*;

verus! {

/// The seven kinds of piece. The kind decides how a piece moves.
#[derive(Copy, Clone, Debug, PartialEq, Eq, Hash, Structural)]
pub enum ChessType {
    General,
    Guard,
    Elephant,
    Horse,
    Chariot,
    Cannon,
    Soldier,
}

/// The two players. Red starts on rows 0 to 4 and moves first.
#[derive(Copy, Clone, Debug, PartialEq, Eq, Hash, Structural)]
pub enum Side {
    Red,
    Black,
}

impl Side {
    /// The other side.
    pub open spec fn other(self) -> Side {
        match self {
            Side::Red => Side::Black,
            Side::Black => Side::Red,
        }
    }

    /// The other side.
    pub fn opponent(&self) -> (s: Side)
        ensures
            s == self.other(),
    {
        match self {
            Side::Red => Side::Black,
            Side::Black => Side::Red,
        }
    }
}

/// What stands on a square: nothing, or a piece of some kind and side.
#[derive(Copy, Clone, Debug, PartialEq, Eq, Hash)]
pub struct ChessPiece(pub Option<(ChessType, Side)>);

/// The character printed for a piece of `kind` and `side`.
pub open spec fn glyph(kind: ChessType, side: Side) -> char {
    match (kind, side) {
        (ChessType::General, Side::Red) => '帅',
        (ChessType::General, Side::Black) => '将',
        (ChessType::Guard, Side::Red) => '仕',
        (ChessType::Guard, Side::Black) => '士',
        (ChessType::Elephant, Side::Red) => '相',
        (ChessType::Elephant, Side::Black) => '象',
        (ChessType::Horse, Side::Red) => '马',
        (ChessType::Horse, Side::Black) => '馬',
        (ChessType::Chariot, Side::Red) => '车',
        (ChessType::Chariot, Side::Black) => '車',
        (ChessType::Cannon, Side::Red) => '炮',
        (ChessType::Cannon, Side::Black) => '砲',
        (ChessType::Soldier, Side::Red) => '兵',
        (ChessType::Soldier, Side::Black) => '卒',
    }
}

impl ChessPiece {
    /// Whether a piece of `side` stands here.
    pub open spec fn allied(self, side: Side) -> bool {
        match self.0 {
            Some((_, s)) => s == side,
            None => false,
        }
    }

    /// Whether a piece of the side opposed to `side` stands here.
    pub open spec fn hostile(self, side: Side) -> bool {
        match self.0 {
            Some((_, s)) => s != side,
            None => false,
        }
    }

    /// Whether the piece of `kind` and `side` stands here.
    pub open spec fn holds(self, kind: ChessType, side: Side) -> bool {
        self.0 == Some((kind, side))
    }

    /// Whether the piece belongs to `other`; an empty square belongs to nobody.
    pub fn same_side(&self, other: Side) -> (b: bool)
        ensures
            b == self.allied(other),
    {
        match self.0 {
            Some((_, s)) => s == other,
            None => false,
        }
    }

    /// Whether `other` is the same: both empty, or of one kind and one side.
    pub fn same_as(&self, other: &ChessPiece) -> (same: bool)
        ensures
            same == (*self == *other),
    {
        match (self.0, other.0) {
            (Some((kind, side)), Some((other_kind, other_side))) => kind == other_kind && side
                == other_side,
            (None, None) => true,
            _ => false,
        }
    }

    /// The character for the piece, or none for an empty square.
    pub fn as_char(&self) -> (c: Option<char>)
        ensures
            c == match self.0 {
                Some((kind, side)) => Some(glyph(kind, side)),
                None => None,
            },
    {
        match self.0 {
            Some((kind, side)) => Some(
                match (kind, side) {
                    (ChessType::General, Side::Red) => '帅',
                    (ChessType::General, Side::Black) => '将',
                    (ChessType::Guard, Side::Red) => '仕',
                    (ChessType::Guard, Side::Black) => '士',
                    (ChessType::Elephant, Side::Red) => '相',
                    (ChessType::Elephant, Side::Black) => '象',
                    (ChessType::Horse, Side::Red) => '马',
                    (ChessType::Horse, Side::Black) => '馬',
                    (ChessType::Chariot, Side::Red) => '车',
                    (ChessType::Chariot, Side::Black) => '車',
                    (ChessType::Cannon, Side::Red) => '炮',
                    (ChessType::Cannon, Side::Black) => '砲',
                    (ChessType::Soldier, Side::Red) => '兵',
                    (ChessType::Soldier, Side::Black) => '卒',
                },
            ),
            None => None,
        }
    }

    /// The character for the piece on an occupied square.
    pub fn as_char_unwrap(&self) -> (c: char)
        requires
            self.0 is Some,
        ensures
            self.0 matches Some((kind, side)) && c == glyph(kind, side),
    {
        match self.as_char() {
            Some(c) => c,
            None => ' ',
        }
    }
}

impl Default for ChessPiece {
    /// The empty square.
    fn default() -> (p: ChessPiece)
        ensures
            p.0 is None,
    {
        ChessPiece(None)
    }
}

} // verus!
