//! The rules of movement, as predicates on a grid of ninety squares.
//!
//! Each predicate takes the grid, the square `(fr, fc)` a piece stands on,
//! the side that owns it, and a square `(tr, tc)`, and says whether the piece
//! may go there. Only the board as it stands counts: whose turn it is, and
//! whether the move leaves the mover's general exposed, play no part.

use vstd::prelude::*;
use crate::chess::cell;
use crate::piece::{ChessPiece, ChessType, Side};
use crate::point::{Direction, ahead, gap, on_board};

verus! {

/// Whether any piece stands on `(row, col)`.
pub open spec fn occupied(grid: Seq<ChessPiece>, row: int, col: int) -> bool {
    cell(grid, row, col).0 is Some
}

/// Whether a piece of `side` may end its move on `(row, col)`: the square is on
/// the board and holds no piece of the same side.
pub open spec fn may_land(grid: Seq<ChessPiece>, side: Side, row: int, col: int) -> bool {
    on_board(row, col) && !cell(grid, row, col).allied(side)
}

/// How many of the first `n` squares from `(row, col)` in direction `d` are
/// occupied. The square `(row, col)` itself is not counted.
pub open spec fn screens(grid: Seq<ChessPiece>, row: int, col: int, d: Direction, n: nat) -> nat
    decreases n,
{
    if n == 0 {
        0
    } else {
        let t = ahead(row, col, d, n as int);
        let here: nat = if occupied(grid, t.0, t.1) {
            1
        } else {
            0
        };
        screens(grid, row, col, d, (n - 1) as nat) + here
    }
}

/// The direction in which `(tr, tc)` lies from `(fr, fc)`, if the two squares
/// differ and share a row or a column.
pub open spec fn bearing(fr: int, fc: int, tr: int, tc: int) -> Option<Direction> {
    if fc == tc && tr < fr {
        Some(Direction::Up)
    } else if fc == tc && tr > fr {
        Some(Direction::Down)
    } else if fr == tr && tc < fc {
        Some(Direction::Left)
    } else if fr == tr && tc > fc {
        Some(Direction::Right)
    } else {
        None
    }
}

/// How many squares apart two squares are, rows plus columns.
pub open spec fn span(fr: int, fc: int, tr: int, tc: int) -> int {
    gap(fr, tr) + gap(fc, tc)
}

/// How many pieces stand strictly between two squares of one row or column.
pub open spec fn between(grid: Seq<ChessPiece>, fr: int, fc: int, tr: int, tc: int) -> nat
    recommends
        bearing(fr, fc, tr, tc) is Some,
{
    screens(grid, fr, fc, bearing(fr, fc, tr, tc)->0, (span(fr, fc, tr, tc) - 1) as nat)
}

/// The row step that takes a soldier of `side` toward the enemy.
pub open spec fn forward(side: Side) -> int {
    match side {
        Side::Red => 1,
        Side::Black => -1,
    }
}

/// Whether going from row `fr` to row `tr` is an advance for `side`.
pub open spec fn advances(side: Side, fr: int, tr: int) -> bool {
    match side {
        Side::Red => tr > fr,
        Side::Black => tr < fr,
    }
}

/// Whether row `row` lies across the river for `side`.
pub open spec fn across_river(side: Side, row: int) -> bool {
    match side {
        Side::Red => row >= 5,
        Side::Black => row <= 4,
    }
}

/// Whether `(row, col)` lies in the palace of `side`: columns 3 to 5 of the
/// three rows at that side's back rank.
pub open spec fn in_palace(side: Side, row: int, col: int) -> bool {
    &&& 3 <= col <= 5
    &&& match side {
        Side::Red => 0 <= row <= 2,
        Side::Black => 7 <= row <= 9,
    }
}

/// Soldier: one step forward, or, once across the river, one step sideways.
pub open spec fn soldier_step(side: Side, fr: int, fc: int, tr: int, tc: int) -> bool {
    ||| tc == fc && tr == fr + forward(side)
    ||| tr == fr && gap(fc, tc) == 1 && across_river(side, fr)
}

/// Soldier: a soldier's step onto a square it may land on.
pub open spec fn soldier_move(
    grid: Seq<ChessPiece>,
    side: Side,
    fr: int,
    fc: int,
    tr: int,
    tc: int,
) -> bool {
    soldier_step(side, fr, fc, tr, tc) && may_land(grid, side, tr, tc)
}

/// Chariot: along a row or column with no piece in between.
pub open spec fn chariot_path(grid: Seq<ChessPiece>, fr: int, fc: int, tr: int, tc: int) -> bool {
    bearing(fr, fc, tr, tc) is Some && between(grid, fr, fc, tr, tc) == 0
}

/// Chariot: a clear path to a square it may land on.
pub open spec fn chariot_move(
    grid: Seq<ChessPiece>,
    side: Side,
    fr: int,
    fc: int,
    tr: int,
    tc: int,
) -> bool {
    chariot_path(grid, fr, fc, tr, tc) && may_land(grid, side, tr, tc)
}

/// Cannon: along a row or column, either to an empty square with no piece in
/// between, or onto an enemy with exactly one piece in between.
pub open spec fn cannon_move(
    grid: Seq<ChessPiece>,
    side: Side,
    fr: int,
    fc: int,
    tr: int,
    tc: int,
) -> bool {
    &&& bearing(fr, fc, tr, tc) is Some
    &&& on_board(tr, tc)
    &&& {
        ||| between(grid, fr, fc, tr, tc) == 0 && !occupied(grid, tr, tc)
        ||| between(grid, fr, fc, tr, tc) == 1 && cell(grid, tr, tc).hostile(side)
    }
}

/// Horse: two squares along one axis and one along the other, with the
/// square next to the horse on the long axis (the leg) empty.
pub open spec fn horse_jump(grid: Seq<ChessPiece>, fr: int, fc: int, tr: int, tc: int) -> bool {
    ||| gap(fr, tr) == 2 && gap(fc, tc) == 1 && !occupied(grid, (fr + tr) / 2, fc)
    ||| gap(fr, tr) == 1 && gap(fc, tc) == 2 && !occupied(grid, fr, (fc + tc) / 2)
}

/// Horse: an unblocked jump onto a square it may land on.
pub open spec fn horse_move(
    grid: Seq<ChessPiece>,
    side: Side,
    fr: int,
    fc: int,
    tr: int,
    tc: int,
) -> bool {
    horse_jump(grid, fr, fc, tr, tc) && may_land(grid, side, tr, tc)
}

/// Elephant: two squares along a diagonal, with the square in the middle
/// (the eye) empty.
pub open spec fn elephant_jump(grid: Seq<ChessPiece>, fr: int, fc: int, tr: int, tc: int) -> bool {
    gap(fr, tr) == 2 && gap(fc, tc) == 2 && !occupied(grid, (fr + tr) / 2, (fc + tc) / 2)
}

/// Elephant: an unblocked jump onto a square it may land on.
pub open spec fn elephant_move(
    grid: Seq<ChessPiece>,
    side: Side,
    fr: int,
    fc: int,
    tr: int,
    tc: int,
) -> bool {
    elephant_jump(grid, fr, fc, tr, tc) && may_land(grid, side, tr, tc)
}

/// Whether `(row, col)` is the centre of the palace of `side`.
pub open spec fn palace_centre(side: Side, row: int, col: int) -> bool {
    &&& col == 4
    &&& match side {
        Side::Red => row == 1,
        Side::Black => row == 8,
    }
}

/// Guard, the step alone: one square along a diagonal inside the palace,
/// between its centre and one of its corners. These four lines are the only
/// ones a guard moves on, so a guard has five squares to stand on.
pub open spec fn guard_step(side: Side, fr: int, fc: int, tr: int, tc: int) -> bool {
    &&& gap(fr, tr) == 1 && gap(fc, tc) == 1
    &&& in_palace(side, fr, fc)
    &&& in_palace(side, tr, tc)
    &&& palace_centre(side, fr, fc) || palace_centre(side, tr, tc)
}

/// Guard: a guard's step onto a square that holds no piece of its own side.
pub open spec fn guard_move(
    grid: Seq<ChessPiece>,
    side: Side,
    fr: int,
    fc: int,
    tr: int,
    tc: int,
) -> bool {
    guard_step(side, fr, fc, tr, tc) && !cell(grid, tr, tc).allied(side)
}

/// General, ordinary step: one square along a row or column, onto a palace
/// square that holds no piece of its own side.
pub open spec fn general_step(
    grid: Seq<ChessPiece>,
    side: Side,
    fr: int,
    fc: int,
    tr: int,
    tc: int,
) -> bool {
    &&& span(fr, fc, tr, tc) == 1
    &&& in_palace(side, tr, tc)
    &&& !cell(grid, tr, tc).allied(side)
}

/// General, flying capture: straight ahead along its column, away from its
/// own back rank, onto the enemy general with no piece in between.
pub open spec fn general_flight(
    grid: Seq<ChessPiece>,
    side: Side,
    fr: int,
    fc: int,
    tr: int,
    tc: int,
) -> bool {
    &&& on_board(tr, tc)
    &&& tc == fc
    &&& advances(side, fr, tr)
    &&& between(grid, fr, fc, tr, tc) == 0
    &&& cell(grid, tr, tc).holds(ChessType::General, side.other())
}

/// General: an ordinary step or a flying capture.
pub open spec fn general_move(
    grid: Seq<ChessPiece>,
    side: Side,
    fr: int,
    fc: int,
    tr: int,
    tc: int,
) -> bool {
    general_step(grid, side, fr, fc, tr, tc) || general_flight(grid, side, fr, fc, tr, tc)
}

/// Whether a piece of `kind` and `side` standing on `(fr, fc)` may go to
/// `(tr, tc)`.
pub open spec fn piece_move(
    grid: Seq<ChessPiece>,
    kind: ChessType,
    side: Side,
    fr: int,
    fc: int,
    tr: int,
    tc: int,
) -> bool {
    match kind {
        ChessType::General => general_move(grid, side, fr, fc, tr, tc),
        ChessType::Guard => guard_move(grid, side, fr, fc, tr, tc),
        ChessType::Elephant => elephant_move(grid, side, fr, fc, tr, tc),
        ChessType::Horse => horse_move(grid, side, fr, fc, tr, tc),
        ChessType::Chariot => chariot_move(grid, side, fr, fc, tr, tc),
        ChessType::Cannon => cannon_move(grid, side, fr, fc, tr, tc),
        ChessType::Soldier => soldier_move(grid, side, fr, fc, tr, tc),
    }
}

/// Whether the piece on `(fr, fc)`, if there is one, may go to `(tr, tc)`.
pub open spec fn legal_move(grid: Seq<ChessPiece>, fr: int, fc: int, tr: int, tc: int) -> bool {
    match cell(grid, fr, fc).0 {
        Some((kind, side)) => piece_move(grid, kind, side, fr, fc, tr, tc),
        None => false,
    }
}

/// Counting farther along a ray never lowers the count.
pub proof fn lemma_screens_grow(
    grid: Seq<ChessPiece>,
    row: int,
    col: int,
    d: Direction,
    m: nat,
    n: nat,
)
    requires
        m <= n,
    ensures
        screens(grid, row, col, d, m) <= screens(grid, row, col, d, n),
    decreases n,
{
    if m < n {
        lemma_screens_grow(grid, row, col, d, m, (n - 1) as nat);
    }
}

/// A square among the first `n` of a ray that is occupied makes the count at
/// least one.
pub proof fn lemma_screens_see(
    grid: Seq<ChessPiece>,
    row: int,
    col: int,
    d: Direction,
    n: nat,
    k: int,
)
    requires
        1 <= k <= n,
        occupied(grid, ahead(row, col, d, k).0, ahead(row, col, d, k).1),
    ensures
        screens(grid, row, col, d, n) >= 1,
    decreases n,
{
    if k < n {
        lemma_screens_see(grid, row, col, d, (n - 1) as nat, k);
    }
}

/// A count of zero means that each of the first `n` squares of the ray is
/// empty, and the other way round.
pub proof fn lemma_screens_none(grid: Seq<ChessPiece>, row: int, col: int, d: Direction, n: nat)
    ensures
        screens(grid, row, col, d, n) == 0 <==> forall|k: int|
            1 <= k <= n ==> !occupied(
                grid,
                #[trigger] ahead(row, col, d, k).0,
                ahead(row, col, d, k).1,
            ),
    decreases n,
{
    if n > 0 {
        lemma_screens_none(grid, row, col, d, (n - 1) as nat);
        if screens(grid, row, col, d, n) == 0 {
            assert forall|k: int| 1 <= k <= n implies !occupied(
                grid,
                #[trigger] ahead(row, col, d, k).0,
                ahead(row, col, d, k).1,
            ) by {
                if occupied(grid, ahead(row, col, d, k).0, ahead(row, col, d, k).1) {
                    lemma_screens_see(grid, row, col, d, n, k);
                }
            }
        }
    }
}

/// No piece may go to the square it stands on.
pub proof fn lemma_origin_is_no_destination(grid: Seq<ChessPiece>, fr: int, fc: int)
    ensures
        !legal_move(grid, fr, fc, fr, fc),
        forall|kind: ChessType, side: Side| !piece_move(grid, kind, side, fr, fc, fr, fc),
{
}

/// Every destination lies on the board.
pub proof fn lemma_destination_on_board(
    grid: Seq<ChessPiece>,
    kind: ChessType,
    side: Side,
    fr: int,
    fc: int,
    tr: int,
    tc: int,
)
    requires
        piece_move(grid, kind, side, fr, fc, tr, tc),
    ensures
        on_board(tr, tc),
{
}

/// No piece may go to a square held by a piece of its own side.
pub proof fn lemma_never_onto_ally(
    grid: Seq<ChessPiece>,
    kind: ChessType,
    side: Side,
    fr: int,
    fc: int,
    tr: int,
    tc: int,
)
    requires
        piece_move(grid, kind, side, fr, fc, tr, tc),
    ensures
        !cell(grid, tr, tc).allied(side),
{
}

/// A cannon captures an enemy piece on its row or column exactly when one
/// piece stands between them: with none, or with two or more, it does not.
pub proof fn lemma_cannon_needs_one_screen(
    grid: Seq<ChessPiece>,
    side: Side,
    fr: int,
    fc: int,
    tr: int,
    tc: int,
)
    requires
        on_board(tr, tc),
        bearing(fr, fc, tr, tc) is Some,
        cell(grid, tr, tc).hostile(side),
    ensures
        cannon_move(grid, side, fr, fc, tr, tc) <==> between(grid, fr, fc, tr, tc) == 1,
{
}

/// An elephant whose eye on a diagonal is occupied cannot go to the square
/// two steps along that diagonal, whatever stands there.
pub proof fn lemma_blocked_eye(grid: Seq<ChessPiece>, side: Side, fr: int, fc: int, tr: int, tc: int)
    requires
        gap(fr, tr) == 2,
        gap(fc, tc) == 2,
        occupied(grid, (fr + tr) / 2, (fc + tc) / 2),
    ensures
        !elephant_move(grid, side, fr, fc, tr, tc),
        !piece_move(grid, ChessType::Elephant, side, fr, fc, tr, tc),
{
}

/// A horse whose leg is occupied cannot make either jump past that leg.
pub proof fn lemma_blocked_leg(grid: Seq<ChessPiece>, side: Side, fr: int, fc: int, tr: int, tc: int)
    requires
        gap(fr, tr) == 2 && gap(fc, tc) == 1 && occupied(grid, (fr + tr) / 2, fc) || gap(fr, tr)
            == 1 && gap(fc, tc) == 2 && occupied(grid, fr, (fc + tc) / 2),
    ensures
        !horse_move(grid, side, fr, fc, tr, tc),
{
}

/// Counting down a column from the upper square and counting up from the
/// lower square count the same squares.
pub proof fn lemma_between_both_ways(grid: Seq<ChessPiece>, col: int, low: int, high: int)
    requires
        low < high,
    ensures
        between(grid, low, col, high, col) == between(grid, high, col, low, col),
{
    let n = (high - low - 1) as nat;
    lemma_column_both_ways(grid, col, low, high, n);
}

/// The first `n` squares below `(low, col)` and the first `n` squares above
/// `(high, col)` hold as many pieces, when they are the same squares.
proof fn lemma_column_both_ways(grid: Seq<ChessPiece>, col: int, low: int, high: int, n: nat)
    requires
        high - low == n + 1,
    ensures
        screens(grid, low, col, Direction::Down, n) == screens(grid, high, col, Direction::Up, n),
    decreases n,
{
    if n > 0 {
        // Drop the square next to `high` from both counts.
        lemma_column_both_ways(grid, col, low, high - 1, (n - 1) as nat);
        lemma_shift_up(grid, col, high, (n - 1) as nat);
    }
}

/// Counting `n + 1` squares up from `(high, col)` is counting the square
/// above it and then `n` squares up from there.
proof fn lemma_shift_up(grid: Seq<ChessPiece>, col: int, high: int, n: nat)
    ensures
        screens(grid, high, col, Direction::Up, n + 1) == screens(
            grid,
            high - 1,
            col,
            Direction::Up,
            n,
        ) + (if occupied(grid, high - 1, col) {
            1nat
        } else {
            0nat
        }),
    decreases n,
{
    if n > 0 {
        lemma_shift_up(grid, col, high, (n - 1) as nat);
    } else {
        assert(screens(grid, high, col, Direction::Up, 0) == 0);
        assert(screens(grid, high - 1, col, Direction::Up, 0) == 0);
    }
}

/// Two generals that face each other on one column, Red's on the lower row,
/// with no piece between them: each may capture the other.
pub proof fn lemma_generals_face(grid: Seq<ChessPiece>, col: int, red_row: int, black_row: int)
    requires
        on_board(red_row, col),
        on_board(black_row, col),
        red_row < black_row,
        cell(grid, red_row, col).holds(ChessType::General, Side::Red),
        cell(grid, black_row, col).holds(ChessType::General, Side::Black),
        between(grid, red_row, col, black_row, col) == 0,
    ensures
        legal_move(grid, red_row, col, black_row, col),
        legal_move(grid, black_row, col, red_row, col),
{
    lemma_between_both_ways(grid, col, red_row, black_row);
}

/// Two generals on one column, Red's on the lower row, with `piece` put on a
/// square between them: neither may capture the other.
pub proof fn lemma_generals_parted(
    grid: Seq<ChessPiece>,
    col: int,
    red_row: int,
    black_row: int,
    row: int,
    piece: ChessPiece,
)
    requires
        grid.len() == 90,
        on_board(red_row, col),
        on_board(black_row, col),
        red_row < row < black_row,
        piece.0 is Some,
        cell(grid, red_row, col).holds(ChessType::General, Side::Red),
        cell(grid, black_row, col).holds(ChessType::General, Side::Black),
    ensures
        !legal_move(grid.update(row * 9 + col, piece), red_row, col, black_row, col),
        !legal_move(grid.update(row * 9 + col, piece), black_row, col, red_row, col),
{
    let parted = grid.update(row * 9 + col, piece);
    let n = (black_row - red_row - 1) as nat;
    assert(occupied(parted, row, col));
    assert(ahead(red_row, col, Direction::Down, row - red_row) == (row, col));
    lemma_screens_see(parted, red_row, col, Direction::Down, n, row - red_row);
    lemma_between_both_ways(parted, col, red_row, black_row);
}

} // verus!
