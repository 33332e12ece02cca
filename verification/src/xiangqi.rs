//! The move generator: for each kind of piece, the squares it may go to.
//!
//! Every generator takes the board, the square the piece stands on and the
//! side that owns it, and returns each legal destination once. The order of
//! the squares in the result carries no meaning.

use vstd::prelude::*;
use crate::chess::ChessBoard;
use crate::piece::{ChessPiece, ChessType, Side};
use crate::point::{Direction, Point, ahead, gap, on_board};
use crate::error::MoveError;
use crate::rules::{
    bearing, between, cannon_move, chariot_move, elephant_move, general_flight, general_step,
    guard_move, horse_move, in_palace, lemma_origin_is_no_destination, lemma_screens_grow,
    palace_centre, piece_move, screens, span,
};

verus! {

/// Whether `result` holds, once each, exactly the squares that a piece of
/// `kind` and `side` standing on `from` may go to.
pub open spec fn lists(
    result: Seq<Point>,
    grid: Seq<ChessPiece>,
    kind: ChessType,
    side: Side,
    from: Point,
) -> bool {
    &&& result.no_duplicates()
    &&& forall|p: Point| #[trigger]
        result.contains(p) <==> p.valid() && piece_move(
            grid,
            kind,
            side,
            from.row(),
            from.col(),
            p.row(),
            p.col(),
        )
}

/// Appends `p`, which `result` does not hold yet.
fn record(result: &mut Vec<Point>, p: Point)
    requires
        old(result)@.no_duplicates(),
        !old(result)@.contains(p),
    ensures
        final(result)@ == old(result)@.push(p),
        final(result)@.no_duplicates(),
        forall|q: Point| #[trigger] final(result)@.contains(q) <==> old(result)@.contains(q) || q == p,
{
    result.push(p);
    proof {
        let before = old(result)@;
        let after = result@;
        assert forall|q: Point| #[trigger] after.contains(q) <==> before.contains(q) || q == p by {
            if before.contains(q) {
                let i = choose|i: int| 0 <= i < before.len() && before[i] == q;
                assert(after[i] == q);
            }
            if q == p {
                assert(after[before.len() as int] == p);
            }
        }
    }
}

/// Whether square `p` lies from `from` in direction `d`, at most `k` away.
spec fn on_ray(from: Point, d: Direction, k: int, p: Point) -> bool {
    &&& p.valid()
    &&& bearing(from.row(), from.col(), p.row(), p.col()) == Some(d)
    &&& span(from.row(), from.col(), p.row(), p.col()) <= k
}

/// Appends the chariot's destinations in direction `d`.
fn chariot_ray(board: &ChessBoard, from: Point, side: Side, d: Direction, result: &mut Vec<Point>)
    requires
        old(result)@.no_duplicates(),
        forall|p: Point| #[trigger]
            old(result)@.contains(p) ==> bearing(from.row(), from.col(), p.row(), p.col())
                != Some(d),
    ensures
        final(result)@.no_duplicates(),
        forall|p: Point| #[trigger]
            final(result)@.contains(p) <==> old(result)@.contains(p) || (on_ray(from, d, 10, p)
                && chariot_move(board@, side, from.row(), from.col(), p.row(), p.col())),
{
    let ghost grid = board@;
    let ghost fr = from.row();
    let ghost fc = from.col();
    let mut cur = from;
    let mut k: usize = 0;
    proof {
        use_type_invariant(from);
    }
    loop
        invariant_except_break
            screens(grid, fr, fc, d, k as nat) == 0,
            forall|p: Point| #[trigger]
                result@.contains(p) <==> old(result)@.contains(p) || (on_ray(from, d, k as int, p)
                    && chariot_move(grid, side, fr, fc, p.row(), p.col())),
        invariant
            from.valid(),
            fr == from.row(),
            fc == from.col(),
            grid == board@,
            cur.valid(),
            k <= 9,
            (cur.row(), cur.col()) == ahead(fr, fc, d, k as int),
            result@.no_duplicates(),
            forall|p: Point| #[trigger]
                old(result)@.contains(p) ==> bearing(fr, fc, p.row(), p.col()) != Some(d),
        ensures
            result@.no_duplicates(),
            forall|p: Point| #[trigger]
                result@.contains(p) <==> old(result)@.contains(p) || (on_ray(from, d, 10, p)
                    && chariot_move(grid, side, fr, fc, p.row(), p.col())),
        decreases 9 - k,
    {
        match cur.step(d) {
            None => {
                break ;
            },
            Some(next) => {
                proof {
                    use_type_invariant(next);
                    assert((next.row(), next.col()) == ahead(fr, fc, d, k + 1));
                }
                let piece = board.get(next);
                let ghost far = (k + 1) as nat;
                proof {
                    assert(bearing(fr, fc, next.row(), next.col()) == Some(d));
                    assert(span(fr, fc, next.row(), next.col()) == far);
                    assert(between(grid, fr, fc, next.row(), next.col()) == 0);
                    assert forall|p: Point| on_ray(from, d, far as int, p) implies on_ray(
                        from,
                        d,
                        k as int,
                        p,
                    ) || p == next by {
                        if span(fr, fc, p.row(), p.col()) == far {
                            p.lemma_same_square(next);
                        }
                    }
                }
                if piece.0.is_none() {
                    record(result, next);
                    proof {
                        assert(screens(grid, fr, fc, d, far) == 0);
                        assert(chariot_move(grid, side, fr, fc, next.row(), next.col()));
                    }
                    cur = next;
                    k = k + 1;
                } else {
                    if !piece.same_side(side) {
                        record(result, next);
                    }
                    proof {
                        assert(screens(grid, fr, fc, d, far) == 1);
                        assert(chariot_move(grid, side, fr, fc, next.row(), next.col())
                            == !piece.allied(side));
                        assert forall|p: Point|
                            on_ray(from, d, 10, p) && span(fr, fc, p.row(), p.col()) > far implies !chariot_move(
                            grid,
                            side,
                            fr,
                            fc,
                            p.row(),
                            p.col(),
                        ) by {
                            lemma_screens_grow(
                                grid,
                                fr,
                                fc,
                                d,
                                far,
                                (span(fr, fc, p.row(), p.col()) - 1) as nat,
                            );
                        }
                    }
                    break ;
                }
            },
        }
    }
}

/// Chariot: the squares it may go to from `from`.
pub fn che(board: &ChessBoard, from: Point, side: Side) -> (result: Vec<Point>)
    ensures
        lists(result@, board@, ChessType::Chariot, side, from),
{
    let mut result: Vec<Point> = Vec::new();
    chariot_ray(board, from, side, Direction::Left, &mut result);
    chariot_ray(board, from, side, Direction::Right, &mut result);
    chariot_ray(board, from, side, Direction::Up, &mut result);
    chariot_ray(board, from, side, Direction::Down, &mut result);
    proof {
        use_type_invariant(from);
    }
    result
}

/// Appends the cannon's destinations in direction `d`: the empty squares up
/// to the first piece, and the enemy piece, if any, that comes next after it.
fn cannon_ray(board: &ChessBoard, from: Point, side: Side, d: Direction, result: &mut Vec<Point>)
    requires
        old(result)@.no_duplicates(),
        forall|p: Point| #[trigger]
            old(result)@.contains(p) ==> bearing(from.row(), from.col(), p.row(), p.col())
                != Some(d),
    ensures
        final(result)@.no_duplicates(),
        forall|p: Point| #[trigger]
            final(result)@.contains(p) <==> old(result)@.contains(p) || (on_ray(from, d, 10, p)
                && cannon_move(board@, side, from.row(), from.col(), p.row(), p.col())),
{
    let ghost grid = board@;
    let ghost fr = from.row();
    let ghost fc = from.col();
    let mut cur = from;
    let mut k: usize = 0;
    let mut met = false;
    proof {
        use_type_invariant(from);
    }
    loop
        invariant_except_break
            screens(grid, fr, fc, d, k as nat) == (if met {
                1nat
            } else {
                0nat
            }),
            forall|p: Point| #[trigger]
                result@.contains(p) <==> old(result)@.contains(p) || (on_ray(from, d, k as int, p)
                    && cannon_move(grid, side, fr, fc, p.row(), p.col())),
        invariant
            from.valid(),
            fr == from.row(),
            fc == from.col(),
            grid == board@,
            cur.valid(),
            k <= 9,
            (cur.row(), cur.col()) == ahead(fr, fc, d, k as int),
            result@.no_duplicates(),
            forall|p: Point| #[trigger]
                old(result)@.contains(p) ==> bearing(fr, fc, p.row(), p.col()) != Some(d),
        ensures
            result@.no_duplicates(),
            forall|p: Point| #[trigger]
                result@.contains(p) <==> old(result)@.contains(p) || (on_ray(from, d, 10, p)
                    && cannon_move(grid, side, fr, fc, p.row(), p.col())),
        decreases 9 - k,
    {
        match cur.step(d) {
            None => {
                break ;
            },
            Some(next) => {
                proof {
                    use_type_invariant(next);
                    assert((next.row(), next.col()) == ahead(fr, fc, d, k + 1));
                }
                let piece = board.get(next);
                let ghost far = (k + 1) as nat;
                proof {
                    assert(bearing(fr, fc, next.row(), next.col()) == Some(d));
                    assert(span(fr, fc, next.row(), next.col()) == far);
                    assert(between(grid, fr, fc, next.row(), next.col()) == screens(
                        grid,
                        fr,
                        fc,
                        d,
                        k as nat,
                    ));
                    assert forall|p: Point| on_ray(from, d, far as int, p) implies on_ray(
                        from,
                        d,
                        k as int,
                        p,
                    ) || p == next by {
                        if span(fr, fc, p.row(), p.col()) == far {
                            p.lemma_same_square(next);
                        }
                    }
                }
                if piece.0.is_none() {
                    if !met {
                        record(result, next);
                    }
                    proof {
                        assert(screens(grid, fr, fc, d, far) == screens(grid, fr, fc, d, k as nat));
                        assert(cannon_move(grid, side, fr, fc, next.row(), next.col()) == !met);
                    }
                    cur = next;
                    k = k + 1;
                } else if met {
                    if !piece.same_side(side) {
                        record(result, next);
                    }
                    proof {
                        assert(screens(grid, fr, fc, d, far) == 2);
                        assert(cannon_move(grid, side, fr, fc, next.row(), next.col())
                            == !piece.allied(side));
                        assert forall|p: Point|
                            on_ray(from, d, 10, p) && span(fr, fc, p.row(), p.col()) > far implies !cannon_move(
                            grid,
                            side,
                            fr,
                            fc,
                            p.row(),
                            p.col(),
                        ) by {
                            lemma_screens_grow(
                                grid,
                                fr,
                                fc,
                                d,
                                far,
                                (span(fr, fc, p.row(), p.col()) - 1) as nat,
                            );
                        }
                    }
                    break ;
                } else {
                    proof {
                        assert(screens(grid, fr, fc, d, far) == 1);
                        assert(!cannon_move(grid, side, fr, fc, next.row(), next.col()));
                    }
                    met = true;
                    cur = next;
                    k = k + 1;
                }
            },
        }
    }
}

/// Cannon: the squares it may go to from `from`.
pub fn pao(board: &ChessBoard, from: Point, side: Side) -> (result: Vec<Point>)
    ensures
        lists(result@, board@, ChessType::Cannon, side, from),
{
    let mut result: Vec<Point> = Vec::new();
    cannon_ray(board, from, side, Direction::Left, &mut result);
    cannon_ray(board, from, side, Direction::Right, &mut result);
    cannon_ray(board, from, side, Direction::Up, &mut result);
    cannon_ray(board, from, side, Direction::Down, &mut result);
    proof {
        use_type_invariant(from);
    }
    result
}

/// Whether `list` holds `p`.
pub fn listed(list: &Vec<Point>, p: Point) -> (found: bool)
    ensures
        found == list@.contains(p),
{
    let mut i: usize = 0;
    while i < list.len()
        invariant
            i <= list.len(),
            forall|j: int| 0 <= j < i ==> list@[j] != p,
        decreases list.len() - i,
    {
        if list[i] == p {
            return true;
        }
        i = i + 1;
    }
    false
}

/// Appends `target` when it exists and holds no piece of `side`.
fn land(board: &ChessBoard, side: Side, target: Option<Point>, result: &mut Vec<Point>)
    requires
        old(result)@.no_duplicates(),
        target matches Some(t) ==> !old(result)@.contains(t),
    ensures
        final(result)@.no_duplicates(),
        forall|q: Point| #[trigger]
            final(result)@.contains(q) <==> old(result)@.contains(q) || (target == Some(q)
                && q.valid() && !board.at(q).allied(side)),
{
    match target {
        Some(t) => {
            proof {
                use_type_invariant(t);
            }
            if !board.get(t).same_side(side) {
                record(result, t);
            }
        },
        None => {},
    }
}

/// Whether `p` lies in the palace of `side`.
pub fn inside_palace(p: Point, side: Side) -> (inside: bool)
    ensures
        inside == in_palace(side, p.row(), p.col()),
{
    let row = p.y();
    p.special_area() && match side {
        Side::Red => row <= 2,
        Side::Black => row >= 7,
    }
}

/// Whether `p` is the centre of the palace of `side`.
fn at_centre(p: Point, side: Side) -> (centre: bool)
    ensures
        centre == palace_centre(side, p.row(), p.col()),
{
    p.x() == 4 && match side {
        Side::Red => p.y() == 1,
        Side::Black => p.y() == 8,
    }
}

/// Soldier: the squares it may go to from `from`.
pub fn bing(board: &ChessBoard, from: Point, side: Side) -> (result: Vec<Point>)
    ensures
        lists(result@, board@, ChessType::Soldier, side, from),
{
    broadcast use Point::lemma_same_square;

    let mut result: Vec<Point> = Vec::new();
    proof {
        use_type_invariant(from);
    }
    let onward = match side {
        Side::Red => from.down(),
        Side::Black => from.up(),
    };
    land(board, side, onward, &mut result);
    let crossed = match side {
        Side::Red => from.is_black_camp(),
        Side::Black => from.is_red_camp(),
    };
    if crossed {
        land(board, side, from.left(), &mut result);
        land(board, side, from.right(), &mut result);
    }
    result
}

/// Whether `(tr, tc)` lies from `(fr, fc)` on the side of `v` by row and on
/// the side of `h` by column.
spec fn toward(fr: int, fc: int, tr: int, tc: int, v: Direction, h: Direction) -> bool {
    &&& match v {
        Direction::Up => tr < fr,
        Direction::Down => tr > fr,
        _ => false,
    }
    &&& match h {
        Direction::Left => tc < fc,
        Direction::Right => tc > fc,
        _ => false,
    }
}

/// The square one step in direction `a` and then one in direction `b`.
fn offset(p: Point, a: Direction, b: Direction) -> (n: Option<Point>)
    ensures
        match n {
            Some(q) => {
                &&& q.valid()
                &&& on_board(ahead(p.row(), p.col(), a, 1).0, ahead(p.row(), p.col(), a, 1).1)
                &&& (q.row(), q.col()) == ahead(
                    ahead(p.row(), p.col(), a, 1).0,
                    ahead(p.row(), p.col(), a, 1).1,
                    b,
                    1,
                )
            },
            None => {
                let m = ahead(p.row(), p.col(), a, 1);
                let t = ahead(m.0, m.1, b, 1);
                !on_board(m.0, m.1) || !on_board(t.0, t.1)
            },
        },
{
    match p.step(a) {
        Some(m) => {
            let n = m.step(b);
            proof {
                match n {
                    Some(q) => {
                        use_type_invariant(q);
                    },
                    None => {},
                }
            }
            n
        },
        None => None,
    }
}

/// Appends the elephant's destination on the diagonal that goes `v` by row
/// and `h` by column, when the eye is empty and the elephant may land there.
fn elephant_leap(
    board: &ChessBoard,
    from: Point,
    side: Side,
    v: Direction,
    h: Direction,
    result: &mut Vec<Point>,
)
    requires
        v == Direction::Up || v == Direction::Down,
        h == Direction::Left || h == Direction::Right,
        old(result)@.no_duplicates(),
        forall|p: Point| #[trigger]
            old(result)@.contains(p) ==> !toward(from.row(), from.col(), p.row(), p.col(), v, h),
    ensures
        final(result)@.no_duplicates(),
        forall|p: Point| #[trigger]
            final(result)@.contains(p) <==> old(result)@.contains(p) || (p.valid() && toward(
                from.row(),
                from.col(),
                p.row(),
                p.col(),
                v,
                h,
            ) && elephant_move(board@, side, from.row(), from.col(), p.row(), p.col())),
{
    proof {
        use_type_invariant(from);
    }
    match offset(from, v, h) {
        Some(eye) => {
            if board.get(eye).0.is_none() {
                let target = offset(eye, v, h);
                land(board, side, target, result);
                proof {
                    assert forall|p: Point|
                        p.valid() && toward(from.row(), from.col(), p.row(), p.col(), v, h)
                            && elephant_move(
                            board@,
                            side,
                            from.row(),
                            from.col(),
                            p.row(),
                            p.col(),
                        ) implies target == Some(p) by {
                        p.lemma_same_square(target->0);
                    }
                }
            }
        },
        None => {},
    }
}

/// Elephant: the squares it may go to from `from`.
pub fn xiang(board: &ChessBoard, from: Point, side: Side) -> (result: Vec<Point>)
    ensures
        lists(result@, board@, ChessType::Elephant, side, from),
{
    let mut result: Vec<Point> = Vec::new();
    elephant_leap(board, from, side, Direction::Up, Direction::Left, &mut result);
    elephant_leap(board, from, side, Direction::Up, Direction::Right, &mut result);
    elephant_leap(board, from, side, Direction::Down, Direction::Left, &mut result);
    elephant_leap(board, from, side, Direction::Down, Direction::Right, &mut result);
    result
}

/// The direction of the long leg of a horse's jump from `(fr, fc)` to
/// `(tr, tc)`, if the two squares are a horse's jump apart.
spec fn long_leg(fr: int, fc: int, tr: int, tc: int) -> Option<Direction> {
    if gap(fr, tr) == 2 && gap(fc, tc) == 1 {
        if tr < fr {
            Some(Direction::Up)
        } else {
            Some(Direction::Down)
        }
    } else if gap(fr, tr) == 1 && gap(fc, tc) == 2 {
        if tc < fc {
            Some(Direction::Left)
        } else {
            Some(Direction::Right)
        }
    } else {
        None
    }
}

/// The two directions that cross direction `d`.
fn flanks(d: Direction) -> (pair: (Direction, Direction))
    ensures
        pair == match d {
            Direction::Up | Direction::Down => (Direction::Left, Direction::Right),
            Direction::Left | Direction::Right => (Direction::Up, Direction::Down),
        },
{
    match d {
        Direction::Up | Direction::Down => (Direction::Left, Direction::Right),
        Direction::Left | Direction::Right => (Direction::Up, Direction::Down),
    }
}

/// Appends the horse's destinations whose long leg goes in direction `d`:
/// none when the square next to the horse in that direction is occupied.
fn horse_leg(board: &ChessBoard, from: Point, side: Side, d: Direction, result: &mut Vec<Point>)
    requires
        old(result)@.no_duplicates(),
        forall|p: Point| #[trigger]
            old(result)@.contains(p) ==> long_leg(from.row(), from.col(), p.row(), p.col())
                != Some(d),
    ensures
        final(result)@.no_duplicates(),
        forall|p: Point| #[trigger]
            final(result)@.contains(p) <==> old(result)@.contains(p) || (p.valid() && long_leg(
                from.row(),
                from.col(),
                p.row(),
                p.col(),
            ) == Some(d) && horse_move(board@, side, from.row(), from.col(), p.row(), p.col())),
{
    proof {
        use_type_invariant(from);
    }
    match from.step(d) {
        Some(leg) => {
            proof {
                use_type_invariant(leg);
            }
            if board.get(leg).0.is_none() {
                let (a, b) = flanks(d);
                let first = offset(leg, d, a);
                let second = offset(leg, d, b);
                land(board, side, first, result);
                land(board, side, second, result);
                proof {
                    assert forall|p: Point|
                        p.valid() && long_leg(from.row(), from.col(), p.row(), p.col()) == Some(d)
                            && horse_move(
                            board@,
                            side,
                            from.row(),
                            from.col(),
                            p.row(),
                            p.col(),
                        ) implies first == Some(p) || second == Some(p) by {
                        if first is Some && first->0.row() == p.row() && first->0.col()
                            == p.col() {
                            p.lemma_same_square(first->0);
                        }
                        if second is Some && second->0.row() == p.row() && second->0.col()
                            == p.col() {
                            p.lemma_same_square(second->0);
                        }
                    }
                }
            }
        },
        None => {},
    }
}

/// Horse: the squares it may go to from `from`.
pub fn ma(board: &ChessBoard, from: Point, side: Side) -> (result: Vec<Point>)
    ensures
        lists(result@, board@, ChessType::Horse, side, from),
{
    let mut result: Vec<Point> = Vec::new();
    horse_leg(board, from, side, Direction::Left, &mut result);
    horse_leg(board, from, side, Direction::Right, &mut result);
    horse_leg(board, from, side, Direction::Up, &mut result);
    horse_leg(board, from, side, Direction::Down, &mut result);
    result
}

/// Appends the guard's destination on the diagonal that goes `v` by row and
/// `h` by column, when the step runs between the centre and a corner of the
/// palace and the guard may land there.
fn guard_hop(
    board: &ChessBoard,
    from: Point,
    side: Side,
    v: Direction,
    h: Direction,
    result: &mut Vec<Point>,
)
    requires
        v == Direction::Up || v == Direction::Down,
        h == Direction::Left || h == Direction::Right,
        in_palace(side, from.row(), from.col()),
        old(result)@.no_duplicates(),
        forall|p: Point| #[trigger]
            old(result)@.contains(p) ==> !toward(from.row(), from.col(), p.row(), p.col(), v, h),
    ensures
        final(result)@.no_duplicates(),
        forall|p: Point| #[trigger]
            final(result)@.contains(p) <==> old(result)@.contains(p) || (p.valid() && toward(
                from.row(),
                from.col(),
                p.row(),
                p.col(),
                v,
                h,
            ) && guard_move(board@, side, from.row(), from.col(), p.row(), p.col())),
{
    proof {
        use_type_invariant(from);
    }
    match offset(from, v, h) {
        Some(target) => {
            if inside_palace(target, side) && (at_centre(from, side) || at_centre(target, side)) {
                land(board, side, Some(target), result);
                proof {
                    assert forall|p: Point|
                        p.valid() && toward(from.row(), from.col(), p.row(), p.col(), v, h)
                            && guard_move(
                            board@,
                            side,
                            from.row(),
                            from.col(),
                            p.row(),
                            p.col(),
                        ) implies p == target by {
                        p.lemma_same_square(target);
                    }
                }
            }
        },
        None => {},
    }
}

/// Guard: the squares it may go to from `from`. A guard that stands on none
/// of its five squares has none.
pub fn shi(board: &ChessBoard, from: Point, side: Side) -> (result: Vec<Point>)
    ensures
        lists(result@, board@, ChessType::Guard, side, from),
{
    let mut result: Vec<Point> = Vec::new();
    if inside_palace(from, side) {
        guard_hop(board, from, side, Direction::Up, Direction::Left, &mut result);
        guard_hop(board, from, side, Direction::Up, Direction::Right, &mut result);
        guard_hop(board, from, side, Direction::Down, Direction::Left, &mut result);
        guard_hop(board, from, side, Direction::Down, Direction::Right, &mut result);
    }
    result
}

/// Appends the general's ordinary step in direction `d`, when that square
/// lies in the palace and the general may land there.
fn general_pace(board: &ChessBoard, from: Point, side: Side, d: Direction, result: &mut Vec<Point>)
    requires
        old(result)@.no_duplicates(),
        forall|p: Point| #[trigger]
            old(result)@.contains(p) ==> bearing(from.row(), from.col(), p.row(), p.col())
                != Some(d),
    ensures
        final(result)@.no_duplicates(),
        forall|p: Point| #[trigger]
            final(result)@.contains(p) <==> old(result)@.contains(p) || (p.valid() && bearing(
                from.row(),
                from.col(),
                p.row(),
                p.col(),
            ) == Some(d) && general_step(board@, side, from.row(), from.col(), p.row(), p.col())),
{
    proof {
        use_type_invariant(from);
    }
    match from.step(d) {
        Some(target) => {
            if inside_palace(target, side) {
                land(board, side, Some(target), result);
                proof {
                    assert forall|p: Point|
                        p.valid() && bearing(from.row(), from.col(), p.row(), p.col()) == Some(d)
                            && general_step(
                            board@,
                            side,
                            from.row(),
                            from.col(),
                            p.row(),
                            p.col(),
                        ) implies p == target by {
                        p.lemma_same_square(target);
                    }
                }
            }
        },
        None => {},
    }
}

/// Appends the square of the enemy general when it is the first piece ahead
/// of the general on its column, unless `result` holds that square already.
fn general_sight(board: &ChessBoard, from: Point, side: Side, result: &mut Vec<Point>)
    requires
        old(result)@.no_duplicates(),
    ensures
        final(result)@.no_duplicates(),
        forall|p: Point| #[trigger]
            final(result)@.contains(p) <==> old(result)@.contains(p) || (p.valid()
                && general_flight(board@, side, from.row(), from.col(), p.row(), p.col())),
{
    let ghost grid = board@;
    let ghost fr = from.row();
    let ghost fc = from.col();
    let d = match side {
        Side::Red => Direction::Down,
        Side::Black => Direction::Up,
    };
    let mut cur = from;
    let mut k: usize = 0;
    proof {
        use_type_invariant(from);
    }
    loop
        invariant_except_break
            screens(grid, fr, fc, d, k as nat) == 0,
            result@ == old(result)@,
            forall|p: Point|
                on_ray(from, d, k as int, p) ==> !#[trigger] general_flight(
                    grid,
                    side,
                    fr,
                    fc,
                    p.row(),
                    p.col(),
                ),
        invariant
            from.valid(),
            fr == from.row(),
            fc == from.col(),
            grid == board@,
            d == match side {
                Side::Red => Direction::Down,
                Side::Black => Direction::Up,
            },
            cur.valid(),
            k <= 9,
            (cur.row(), cur.col()) == ahead(fr, fc, d, k as int),
            old(result)@.no_duplicates(),
        ensures
            result@.no_duplicates(),
            forall|p: Point| #[trigger]
                result@.contains(p) <==> old(result)@.contains(p) || (p.valid() && general_flight(
                    grid,
                    side,
                    fr,
                    fc,
                    p.row(),
                    p.col(),
                )),
        decreases 9 - k,
    {
        proof {
            assert forall|p: Point|
                p.valid() && general_flight(grid, side, fr, fc, p.row(), p.col()) implies on_ray(
                from,
                d,
                10,
                p,
            ) by {}
        }
        match cur.step(d) {
            None => {
                break ;
            },
            Some(next) => {
                proof {
                    use_type_invariant(next);
                    assert((next.row(), next.col()) == ahead(fr, fc, d, k + 1));
                }
                let piece = board.get(next);
                let ghost far = (k + 1) as nat;
                proof {
                    assert(bearing(fr, fc, next.row(), next.col()) == Some(d));
                    assert(span(fr, fc, next.row(), next.col()) == far);
                    assert(between(grid, fr, fc, next.row(), next.col()) == 0);
                    assert forall|p: Point| on_ray(from, d, far as int, p) implies on_ray(
                        from,
                        d,
                        k as int,
                        p,
                    ) || p == next by {
                        if span(fr, fc, p.row(), p.col()) == far {
                            p.lemma_same_square(next);
                        }
                    }
                }
                match piece.0 {
                    None => {
                        proof {
                            assert(screens(grid, fr, fc, d, far) == 0);
                        }
                        cur = next;
                        k = k + 1;
                    },
                    Some((kind, owner)) => {
                        let faces = kind == ChessType::General && owner != side;
                        if faces && !listed(result, next) {
                            record(result, next);
                        }
                        proof {
                            assert(screens(grid, fr, fc, d, far) == 1);
                            assert(general_flight(grid, side, fr, fc, next.row(), next.col())
                                == faces);
                            assert forall|p: Point|
                                on_ray(from, d, 10, p) && span(fr, fc, p.row(), p.col())
                                    > far implies !general_flight(
                                grid,
                                side,
                                fr,
                                fc,
                                p.row(),
                                p.col(),
                            ) by {
                                lemma_screens_grow(
                                    grid,
                                    fr,
                                    fc,
                                    d,
                                    far,
                                    (span(fr, fc, p.row(), p.col()) - 1) as nat,
                                );
                            }
                        }
                        break ;
                    },
                }
            },
        }
    }
}

/// General: the squares it may go to from `from`, the flying capture of the
/// enemy general among them.
pub fn jiang(board: &ChessBoard, from: Point, side: Side) -> (result: Vec<Point>)
    ensures
        lists(result@, board@, ChessType::General, side, from),
{
    let mut result: Vec<Point> = Vec::new();
    general_pace(board, from, side, Direction::Left, &mut result);
    general_pace(board, from, side, Direction::Right, &mut result);
    general_pace(board, from, side, Direction::Up, &mut result);
    general_pace(board, from, side, Direction::Down, &mut result);
    general_sight(board, from, side, &mut result);
    proof {
        use_type_invariant(from);
    }
    result
}

/// The squares that the piece on `from` may go to, by the rules of its kind.
/// An empty square has no piece to move: that is an error, not an empty list.
pub fn calculate_operators(board: &ChessBoard, from: Point) -> (outcome: Result<
    Vec<Point>,
    MoveError,
>)
    ensures
        match outcome {
            Ok(list) => {
                &&& board.at(from).0 matches Some((kind, side)) && lists(
                    list@,
                    board@,
                    kind,
                    side,
                    from,
                )
                &&& !list@.contains(from)
            },
            Err(e) => e == MoveError::EmptySquareSelected && board.at(from).0 is None,
        },
{
    proof {
        lemma_origin_is_no_destination(board@, from.row(), from.col());
    }
    match board.get(from).0 {
        None => Err(MoveError::EmptySquareSelected),
        Some((kind, side)) => Ok(
            match kind {
                ChessType::General => jiang(board, from, side),
                ChessType::Guard => shi(board, from, side),
                ChessType::Elephant => xiang(board, from, side),
                ChessType::Horse => ma(board, from, side),
                ChessType::Chariot => che(board, from, side),
                ChessType::Cannon => pao(board, from, side),
                ChessType::Soldier => bing(board, from, side),
            },
        ),
    }
}

/// The square with linear index `index`; an index of 90 or more names no
/// square.
pub fn secure(index: usize) -> (outcome: Result<Point, MoveError>)
    ensures
        match outcome {
            Ok(p) => index < 90 && p.valid() && p.index() == index,
            Err(e) => e == MoveError::InvalidCoordinate && index >= 90,
        },
{
    match Point::from_raw(index) {
        Some(p) => {
            proof {
                use_type_invariant(p);
            }
            Ok(p)
        },
        None => Err(MoveError::InvalidCoordinate),
    }
}

} // verus!
