//! Coordinates on the 9 x 10 board.
//!
//! A [`Point`] names one of the 90 intersections. Columns (files) run from 0
//! to 8, rows (ranks) from 0 to 9; Red's back rank is row 0 and Black's is
//! row 9. Every `Point` that exists at run time lies on the board.

use vstd::prelude::*;

verus! {

/// The four orthogonal directions. `Up` lowers the row, `Down` raises it,
/// `Left` lowers the column and `Right` raises it.
#[derive(Clone, Copy, Debug, PartialEq, Eq, Structural)]
pub enum Direction {
    Up,
    Down,
    Left,
    Right,
}

/// Whether `(row, col)` is one of the 90 squares.
pub open spec fn on_board(row: int, col: int) -> bool {
    0 <= row < 10 && 0 <= col < 9
}

/// The square reached from `(row, col)` after `k` steps in direction `d`.
pub open spec fn ahead(row: int, col: int, d: Direction, k: int) -> (int, int) {
    match d {
        Direction::Up => (row - k, col),
        Direction::Down => (row + k, col),
        Direction::Left => (row, col - k),
        Direction::Right => (row, col + k),
    }
}

/// The distance between two integers.
pub open spec fn gap(a: int, b: int) -> int {
    if a <= b {
        b - a
    } else {
        a - b
    }
}

/// A square of the board, stored as (column, row).
#[derive(Clone, Copy, Debug, PartialEq, Eq, Hash, Structural)]
pub struct Point(usize, usize);

impl Point {
    /// The column (file) of the square.
    pub closed spec fn col(self) -> int {
        self.0 as int
    }

    /// The row (rank) of the square.
    pub closed spec fn row(self) -> int {
        self.1 as int
    }

    /// Every point lies on the board.
    #[verifier::type_invariant]
    pub open spec fn valid(self) -> bool {
        on_board(self.row(), self.col())
    }

    /// The linear index of the square: rows of nine, row 0 first.
    pub open spec fn index(self) -> int {
        self.row() * 9 + self.col()
    }

    /// Two points on the same row and column are the same point.
    pub broadcast proof fn lemma_same_square(self, other: Point)
        requires
            #[trigger] self.row() == #[trigger] other.row(),
            self.col() == other.col(),
        ensures
            self == other,
    {
    }

    /// Builds the point on `row` and `col`, if that square exists.
    pub fn with_row_column(row: usize, col: usize) -> (p: Option<Point>)
        ensures
            p is Some <==> on_board(row as int, col as int),
            p matches Some(q) ==> q.row() == row && q.col() == col,
    {
        if row < 10 && col < 9 {
            Some(Point(col, row))
        } else {
            None
        }
    }

    /// The column of the square.
    pub fn x(&self) -> (x: usize)
        ensures
            x == self.col(),
            x < 9,
    {
        proof {
            use_type_invariant(self);
        }
        self.0
    }

    /// The row of the square.
    pub fn y(&self) -> (y: usize)
        ensures
            y == self.row(),
            y < 10,
    {
        proof {
            use_type_invariant(self);
        }
        self.1
    }

    /// The linear index of the square, below 90.
    pub fn raw(&self) -> (i: usize)
        ensures
            i == self.index(),
            i < 90,
    {
        proof {
            use_type_invariant(self);
        }
        self.1 * 9 + self.0
    }

    /// The point with linear index `index`, if `index` is below 90.
    pub fn from_raw(index: usize) -> (p: Option<Point>)
        ensures
            p is Some <==> index < 90,
            p matches Some(q) ==> q.index() == index,
    {
        if index < 90 {
            Some(Point(index % 9, index / 9))
        } else {
            None
        }
    }

    /// The neighbour one row up; none on row 0.
    pub fn up(&self) -> (n: Option<Point>)
        ensures
            n is Some <==> self.row() > 0,
            n matches Some(q) ==> q.row() == self.row() - 1 && q.col() == self.col(),
    {
        proof {
            use_type_invariant(self);
        }
        if self.1 == 0 {
            None
        } else {
            Some(Point(self.0, self.1 - 1))
        }
    }

    /// The neighbour one row down; none on row 9.
    pub fn down(&self) -> (n: Option<Point>)
        ensures
            n is Some <==> self.row() < 9,
            n matches Some(q) ==> q.row() == self.row() + 1 && q.col() == self.col(),
    {
        proof {
            use_type_invariant(self);
        }
        if self.1 == 9 {
            None
        } else {
            Some(Point(self.0, self.1 + 1))
        }
    }

    /// The neighbour one column to the left; none on column 0.
    pub fn left(&self) -> (n: Option<Point>)
        ensures
            n is Some <==> self.col() > 0,
            n matches Some(q) ==> q.row() == self.row() && q.col() == self.col() - 1,
    {
        proof {
            use_type_invariant(self);
        }
        if self.0 == 0 {
            None
        } else {
            Some(Point(self.0 - 1, self.1))
        }
    }

    /// The neighbour one column to the right; none on column 8.
    pub fn right(&self) -> (n: Option<Point>)
        ensures
            n is Some <==> self.col() < 8,
            n matches Some(q) ==> q.row() == self.row() && q.col() == self.col() + 1,
    {
        proof {
            use_type_invariant(self);
        }
        if self.0 == 8 {
            None
        } else {
            Some(Point(self.0 + 1, self.1))
        }
    }

    /// The neighbour one step away in direction `d`, if it is on the board.
    pub fn step(&self, d: Direction) -> (n: Option<Point>)
        ensures
            n is Some <==> {
                let t = ahead(self.row(), self.col(), d, 1);
                on_board(t.0, t.1)
            },
            n matches Some(q) ==> (q.row(), q.col()) == ahead(self.row(), self.col(), d, 1),
    {
        proof {
            use_type_invariant(self);
        }
        match d {
            Direction::Up => self.up(),
            Direction::Down => self.down(),
            Direction::Left => self.left(),
            Direction::Right => self.right(),
        }
    }

    /// Whether the square lies in Red's half of the board, rows 0 to 4.
    pub fn is_red_camp(&self) -> (b: bool)
        ensures
            b == (self.row() <= 4),
    {
        self.1 <= 4
    }

    /// Whether the square lies in Black's half of the board, rows 5 to 9.
    pub fn is_black_camp(&self) -> (b: bool)
        ensures
            b == (self.row() >= 5),
    {
        self.1 >= 5
    }

    /// The diagonal neighbour up and to the left.
    pub fn left_up(&self) -> (n: Option<Point>)
        ensures
            n is Some <==> self.col() > 0 && self.row() > 0,
            n matches Some(q) ==> q.row() == self.row() - 1 && q.col() == self.col() - 1,
    {
        match self.left() {
            Some(side) => side.up(),
            None => None,
        }
    }

    /// The diagonal neighbour up and to the right.
    pub fn right_up(&self) -> (n: Option<Point>)
        ensures
            n is Some <==> self.col() < 8 && self.row() > 0,
            n matches Some(q) ==> q.row() == self.row() - 1 && q.col() == self.col() + 1,
    {
        match self.right() {
            Some(side) => side.up(),
            None => None,
        }
    }

    /// The diagonal neighbour down and to the left.
    pub fn left_down(&self) -> (n: Option<Point>)
        ensures
            n is Some <==> self.col() > 0 && self.row() < 9,
            n matches Some(q) ==> q.row() == self.row() + 1 && q.col() == self.col() - 1,
    {
        match self.left() {
            Some(side) => side.down(),
            None => None,
        }
    }

    /// The diagonal neighbour down and to the right.
    pub fn right_down(&self) -> (n: Option<Point>)
        ensures
            n is Some <==> self.col() < 8 && self.row() < 9,
            n matches Some(q) ==> q.row() == self.row() + 1 && q.col() == self.col() + 1,
    {
        match self.right() {
            Some(side) => side.down(),
            None => None,
        }
    }

    /// The Manhattan distance to `other`: rows apart plus columns apart.
    pub fn dis(&self, other: &Point) -> (d: usize)
        ensures
            d == gap(self.row(), other.row()) + gap(self.col(), other.col()),
    {
        proof {
            use_type_invariant(self);
            use_type_invariant(other);
        }
        let across: usize = if self.0 <= other.0 {
            other.0 - self.0
        } else {
            self.0 - other.0
        };
        let along: usize = if self.1 <= other.1 {
            other.1 - self.1
        } else {
            self.1 - other.1
        };
        across + along
    }

    /// Whether the square lies in the three palace columns, 3 to 5.
    pub fn special_area(&self) -> (b: bool)
        ensures
            b == (3 <= self.col() <= 5),
    {
        self.0 >= 3 && self.0 <= 5
    }
}

/// Builds the point in column `x` and row `y`, if that square exists.
pub fn point(x: usize, y: usize) -> (p: Option<Point>)
    ensures
        p is Some <==> x < 9 && y < 10,
        p matches Some(q) ==> q.col() == x && q.row() == y,
{
    if x >= 9 {
        return None;
    }
    if y >= 10 {
        return None;
    }
    Some(Point(x, y))
}

/// A move as a pair of squares: where from and where to.
#[derive(Clone, Copy, Debug, PartialEq, Eq, Hash, Structural)]
pub struct Vector {
    pub from: Point,
    pub to: Point,
}

impl Vector {
    /// The move from `from` to `to`.
    pub fn new(from: Point, to: Point) -> (v: Vector)
        ensures
            v.from == from,
            v.to == to,
    {
        Vector { from, to }
    }

    /// The square the move starts on.
    pub fn from(&self) -> (p: Point)
        ensures
            p == self.from,
    {
        self.from
    }

    /// The square the move ends on.
    pub fn to(&self) -> (p: Point)
        ensures
            p == self.to,
    {
        self.to
    }
}

} // verus!
