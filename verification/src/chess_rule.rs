//! Checks of a single move against the shape that each kind of piece moves
//! in: the steps and jumps, and what must be empty on the way. Whether the
//! piece may land on the destination is a separate question, which
//! [`crate::rules::may_land`] answers.

use vstd::prelude::*;
use crate::chess::ChessBoard;
use crate::piece::Side;
use crate::point::{Direction, Vector, ahead};
use crate::rules::{
    bearing, chariot_path, elephant_jump, horse_jump, lemma_screens_grow, screens, soldier_step,
    span,
};

verus! {

/// Whether `op` is a soldier's step for `camp`: one square forward, or one
/// square sideways from a square across the river.
pub fn pawn_move_check(op: Vector, camp: Side, _chess: &ChessBoard) -> (ok: bool)
    ensures
        ok == soldier_step(camp, op.from.row(), op.from.col(), op.to.row(), op.to.col()),
{
    let from = op.from();
    let to = op.to();
    let (x, y) = (from.x(), from.y());
    let (x1, y1) = (to.x(), to.y());
    let dx: usize = if x <= x1 {
        x1 - x
    } else {
        x - x1
    };
    let dy: usize = if y <= y1 {
        y1 - y
    } else {
        y - y1
    };
    if dx + dy != 1 {
        return false;
    }
    match camp {
        Side::Red => {
            if y1 < y {
                return false;
            }
            if y1 == y && y <= 4 {
                return false;
            }
        },
        Side::Black => {
            if y1 > y {
                return false;
            }
            if y1 == y && y >= 5 {
                return false;
            }
        },
    }
    true
}

/// Whether `op` runs along a row or a column with no piece between its two
/// squares.
pub fn rook_move_check(op: Vector, _camp: Side, chess: &ChessBoard) -> (ok: bool)
    ensures
        ok == chariot_path(chess@, op.from.row(), op.from.col(), op.to.row(), op.to.col()),
{
    let from = op.from();
    let to = op.to();
    let (x, y) = (from.x(), from.y());
    let (x1, y1) = (to.x(), to.y());
    let d = if x == x1 {
        if y == y1 {
            return false;
        }
        if y1 < y {
            Direction::Up
        } else {
            Direction::Down
        }
    } else if y == y1 {
        if x1 < x {
            Direction::Left
        } else {
            Direction::Right
        }
    } else {
        return false;
    };
    let ghost grid = chess@;
    let ghost fr = from.row();
    let ghost fc = from.col();
    let ghost reach = span(fr, fc, to.row(), to.col());
    let mut cur = from;
    let mut k: usize = 0;
    loop
        invariant
            from == op.from,
            to == op.to,
            from.valid(),
            to.valid(),
            fr == from.row(),
            fc == from.col(),
            grid == chess@,
            bearing(fr, fc, to.row(), to.col()) == Some(d),
            reach == span(fr, fc, to.row(), to.col()),
            cur.valid(),
            k < reach,
            (cur.row(), cur.col()) == ahead(fr, fc, d, k as int),
            screens(grid, fr, fc, d, k as nat) == 0,
        decreases reach - k,
    {
        match cur.step(d) {
            Some(next) => {
                if next == to {
                    return true;
                }
                proof {
                    use_type_invariant(next);
                    if k + 1 == reach {
                        next.lemma_same_square(to);
                    }
                }
                if chess.get(next).0.is_some() {
                    proof {
                        assert(screens(grid, fr, fc, d, (k + 1) as nat) == 1);
                        lemma_screens_grow(grid, fr, fc, d, (k + 1) as nat, (reach - 1) as nat);
                    }
                    return false;
                }
                cur = next;
                k = k + 1;
            },
            None => {
                return false;
            },
        }
    }
}

/// Whether `op` is a horse's jump whose leg is empty.
pub fn knight_move_check(op: Vector, _camp: Side, chess: &ChessBoard) -> (ok: bool)
    ensures
        ok == horse_jump(chess@, op.from.row(), op.from.col(), op.to.row(), op.to.col()),
{
    let from = op.from();
    let to = op.to();
    let (x, y) = (from.x(), from.y());
    let (x1, y1) = (to.x(), to.y());
    let dx: usize = if x <= x1 {
        x1 - x
    } else {
        x - x1
    };
    let dy: usize = if y <= y1 {
        y1 - y
    } else {
        y - y1
    };
    if dx + dy != 3 {
        return false;
    }
    let leg = if dx == 2 {
        if x1 > x {
            from.right()
        } else {
            from.left()
        }
    } else if dy == 2 {
        if y1 > y {
            from.down()
        } else {
            from.up()
        }
    } else {
        return false;
    };
    match leg {
        Some(square) => chess.get(square).0.is_none(),
        None => false,
    }
}

/// Whether `op` is an elephant's jump whose eye is empty.
pub fn bishop_move_check(op: Vector, _camp: Side, chess: &ChessBoard) -> (ok: bool)
    ensures
        ok == elephant_jump(chess@, op.from.row(), op.from.col(), op.to.row(), op.to.col()),
{
    let from = op.from();
    let to = op.to();
    let (x, y) = (from.x(), from.y());
    let (x1, y1) = (to.x(), to.y());
    let dx: usize = if x <= x1 {
        x1 - x
    } else {
        x - x1
    };
    let dy: usize = if y <= y1 {
        y1 - y
    } else {
        y - y1
    };
    if dx != 2 || dy != 2 {
        return false;
    }
    let across = if x1 > x {
        from.right()
    } else {
        from.left()
    };
    let eye = match across {
        Some(square) => if y1 > y {
            square.down()
        } else {
            square.up()
        },
        None => None,
    };
    match eye {
        Some(square) => chess.get(square).0.is_none(),
        None => false,
    }
}

} // verus!
