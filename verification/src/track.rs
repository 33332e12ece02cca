//! The board together with the moves that led to it.
//!
//! A [`BoardTrack`] owns the board. A move is first attempted, which checks
//! it against the rules and changes nothing, and then committed, which moves
//! the piece and appends a [`Step`] to the history. The last step can be
//! undone, which puts back both the piece that moved and the piece it took.

use vstd::prelude::*;
use crate::chess::{ChessBoard, cell, is_opening, opening_piece};
use crate::error::MoveError;
use crate::piece::{ChessPiece, ChessType, Side};
use crate::point::Point;
use crate::rules::legal_move;
use crate::xiangqi::{calculate_operators, listed};

verus! {

/// One committed move: where the piece came from, where it went, and what
/// stood on the destination before it arrived.
#[derive(Clone, Copy, Debug, PartialEq, Eq)]
pub struct Step {
    pub from: Point,
    pub to: Point,
    pub captured: ChessPiece,
}

/// A move that was checked against the rules and not yet carried out.
#[derive(Clone, Copy, Debug, PartialEq, Eq)]
pub struct StepTransaction(Step);

/// The grid after `step` is carried out on `grid`: the piece on `step.from`
/// stands on `step.to` and `step.from` is empty.
pub open spec fn applied(grid: Seq<ChessPiece>, step: Step) -> Seq<ChessPiece> {
    grid.update(step.to.index(), grid[step.from.index()]).update(
        step.from.index(),
        ChessPiece(None),
    )
}

/// The grid after `step` is taken back on `grid`: the piece on `step.to`
/// stands on `step.from` again and `step.to` holds what was captured.
pub open spec fn reverted(grid: Seq<ChessPiece>, step: Step) -> Seq<ChessPiece> {
    grid.update(step.from.index(), grid[step.to.index()]).update(
        step.to.index(),
        step.captured,
    )
}

/// Whether `step` is a legal move on `grid` that records what it captures.
pub open spec fn follows(grid: Seq<ChessPiece>, step: Step) -> bool {
    &&& step.from.valid()
    &&& step.to.valid()
    &&& legal_move(grid, step.from.row(), step.from.col(), step.to.row(), step.to.col())
    &&& step.captured == grid[step.to.index()]
}

/// Whether `steps`, played in order from the opening position, are legal
/// moves one after another and end in `grid`.
pub open spec fn reaches(steps: Seq<Step>, grid: Seq<ChessPiece>) -> bool
    decreases steps.len(),
{
    if steps.len() == 0 {
        is_opening(grid)
    } else {
        let last = steps.last();
        let before = reverted(grid, last);
        &&& grid.len() == 90
        &&& follows(before, last)
        &&& applied(before, last) == grid
        &&& reaches(steps.drop_last(), before)
    }
}

/// Taking back a step that was just carried out gives the grid as it was,
/// square for square.
pub proof fn lemma_revert_applied(grid: Seq<ChessPiece>, step: Step)
    requires
        grid.len() == 90,
        step.from.valid(),
        step.to.valid(),
        step.captured == grid[step.to.index()],
    ensures
        reverted(applied(grid, step), step) == grid,
{
    assert(reverted(applied(grid, step), step) =~= grid);
}

/// Whether at most one square of `grid` holds the general of `side`.
pub open spec fn one_general(grid: Seq<ChessPiece>, side: Side) -> bool {
    forall|i: int, j: int|
        0 <= i < 90 && 0 <= j < 90 && (#[trigger] grid[i]).holds(ChessType::General, side) && (
        #[trigger] grid[j]).holds(ChessType::General, side) ==> i == j
}

/// However many moves were played from the opening position, neither side
/// has more than one general on the board.
pub proof fn lemma_one_general(steps: Seq<Step>, grid: Seq<ChessPiece>, side: Side)
    requires
        reaches(steps, grid),
    ensures
        one_general(grid, side),
    decreases steps.len(),
{
    if steps.len() == 0 {
        assert forall|i: int| 0 <= i < 90 && (#[trigger] grid[i]).holds(
            ChessType::General,
            side,
        ) implies i == (match side {
            Side::Red => 4int,
            Side::Black => 85int,
        }) by {
            assert(cell(grid, i / 9, i % 9) == opening_piece(i / 9, i % 9));
        }
    } else {
        let last = steps.last();
        let before = reverted(grid, last);
        lemma_one_general(steps.drop_last(), before, side);
        assert forall|i: int, j: int|
            0 <= i < 90 && 0 <= j < 90 && (#[trigger] grid[i]).holds(ChessType::General, side) && (
            #[trigger] grid[j]).holds(ChessType::General, side) implies i == j by {
            let from = last.from.index();
            let to = last.to.index();
            if i != j {
                if i == to {
                    assert(before[from].holds(ChessType::General, side));
                    assert(before[j].holds(ChessType::General, side));
                } else if j == to {
                    assert(before[from].holds(ChessType::General, side));
                    assert(before[i].holds(ChessType::General, side));
                } else {
                    assert(before[i].holds(ChessType::General, side));
                    assert(before[j].holds(ChessType::General, side));
                }
            }
        }
    }
}

impl StepTransaction {
    /// The step that committing this move will record.
    pub closed spec fn step(self) -> Step {
        self.0
    }

    /// The square the piece leaves.
    pub fn from(&self) -> (p: Point)
        ensures
            p == self.step().from,
    {
        self.0.from
    }

    /// The square the piece goes to.
    pub fn to(&self) -> (p: Point)
        ensures
            p == self.step().to,
    {
        self.0.to
    }

    /// What stands on the destination and will be captured.
    pub fn captured(&self) -> (piece: ChessPiece)
        ensures
            piece == self.step().captured,
    {
        self.0.captured
    }

    /// Carries the move out on `track`, as [`BoardTrack::commit`] does.
    pub fn commit(self, track: &mut BoardTrack)
        ensures
            final(track).board() == applied(old(track).board(), self.step()),
            final(track).history() == old(track).history().push(self.step()),
            old(track).wf() && old(track).admits(self) ==> final(track).wf(),
    {
        track.commit(self);
    }
}

/// The board and the history of the moves made on it.
pub struct BoardTrack {
    inner: ChessBoard,
    steps: Vec<Step>,
}

impl BoardTrack {
    /// The ninety squares of the board, row 0 first.
    pub closed spec fn board(self) -> Seq<ChessPiece> {
        self.inner@
    }

    /// The steps committed and not undone, oldest first.
    pub closed spec fn history(self) -> Seq<Step> {
        self.steps@
    }

    /// The board is the one that the history leads to from the opening
    /// position, by legal moves. A new track is well formed, and stays so
    /// as long as every move committed was attempted on the board it is
    /// committed to.
    pub open spec fn wf(self) -> bool {
        reaches(self.history(), self.board())
    }

    /// Whether `pending` is a move attempted on the board as it stands now.
    pub open spec fn admits(self, pending: StepTransaction) -> bool {
        follows(self.board(), pending.step())
    }

    /// The board has ninety squares.
    pub proof fn lemma_board_len(self)
        ensures
            self.board().len() == 90,
    {
    }

    /// A well-formed track holds at most one general of each side.
    pub proof fn lemma_generals(self)
        requires
            self.wf(),
        ensures
            one_general(self.board(), Side::Red),
            one_general(self.board(), Side::Black),
    {
        lemma_one_general(self.history(), self.board(), Side::Red);
        lemma_one_general(self.history(), self.board(), Side::Black);
    }

    /// The opening position with an empty history.
    pub fn new() -> (track: BoardTrack)
        ensures
            track.wf(),
            is_opening(track.board()),
            track.history().len() == 0,
    {
        BoardTrack { inner: ChessBoard::new(), steps: Vec::new() }
    }

    /// The board as it stands.
    pub fn chess_board(&self) -> (board: &ChessBoard)
        ensures
            board@ == self.board(),
    {
        &self.inner
    }

    /// How many steps the history holds.
    pub fn len(&self) -> (n: usize)
        ensures
            n == self.history().len(),
    {
        self.steps.len()
    }

    /// The squares that the piece on `from` may go to. An empty square is
    /// refused with `EmptySquareSelected`.
    pub fn get_steps(&self, from: Point) -> (outcome: Result<Vec<Point>, MoveError>)
        ensures
            match outcome {
                Ok(list) => {
                    &&& list@.no_duplicates()
                    &&& !list@.contains(from)
                    &&& self.board()[from.index()].0 is Some
                    &&& forall|p: Point| #[trigger]
                        list@.contains(p) <==> p.valid() && legal_move(
                            self.board(),
                            from.row(),
                            from.col(),
                            p.row(),
                            p.col(),
                        )
                },
                Err(e) => e == MoveError::EmptySquareSelected && self.board()[from.index()].0
                    is None,
            },
    {
        calculate_operators(&self.inner, from)
    }

    /// Checks the move from `from` to `to` against the rules and changes
    /// nothing. A legal move comes back ready to commit, with the piece it
    /// will capture; any other is refused with `IllegalMove`.
    pub fn attempt_step(&self, from: Point, to: Point) -> (outcome: Result<
        StepTransaction,
        MoveError,
    >)
        ensures
            match outcome {
                Ok(pending) => {
                    &&& self.admits(pending)
                    &&& pending.step() == (Step {
                        from,
                        to,
                        captured: self.board()[to.index()],
                    })
                },
                Err(e) => e == MoveError::IllegalMove && !legal_move(
                    self.board(),
                    from.row(),
                    from.col(),
                    to.row(),
                    to.col(),
                ),
            },
    {
        proof {
            use_type_invariant(from);
            use_type_invariant(to);
        }
        match calculate_operators(&self.inner, from) {
            Ok(list) => {
                if listed(&list, to) {
                    Ok(self.step(from, to))
                } else {
                    Err(MoveError::IllegalMove)
                }
            },
            Err(_) => Err(MoveError::IllegalMove),
        }
    }

    /// The move from `from` to `to` with what it captures, unchecked.
    fn step(&self, from: Point, to: Point) -> (pending: StepTransaction)
        ensures
            pending.step() == (Step { from, to, captured: self.board()[to.index()] }),
    {
        let captured = self.inner.get(to);
        StepTransaction(Step { from, to, captured })
    }

    /// Whether `pending` is a move attempted on the board as it stands now,
    /// and so may be committed.
    pub fn accepts(&self, pending: &StepTransaction) -> (ok: bool)
        ensures
            ok == self.admits(*pending),
    {
        let step = pending.0;
        proof {
            use_type_invariant(step.from);
            use_type_invariant(step.to);
        }
        match self.attempt_step(step.from, step.to) {
            Ok(fresh) => fresh.0.captured.same_as(&step.captured),
            Err(_) => false,
        }
    }

    /// Carries out `pending`: the piece goes from its square to the
    /// destination, over whatever stood there, and the step joins the
    /// history. The track stays well formed when `pending` was attempted on
    /// the board as it stands.
    pub fn commit(&mut self, pending: StepTransaction)
        ensures
            final(self).board() == applied(old(self).board(), pending.step()),
            final(self).history() == old(self).history().push(pending.step()),
            old(self).wf() && old(self).admits(pending) ==> final(self).wf(),
    {
        let step = pending.0;
        let moved = self.inner.get(step.from);
        self.steps.push(step);
        self.inner.set(step.to, moved);
        self.inner.set(step.from, ChessPiece(None));
        proof {
            if old(self).wf() && old(self).admits(pending) {
                lemma_revert_applied(old(self).board(), step);
                assert(self.history().drop_last() =~= old(self).history());
            }
        }
    }

    /// Takes back the last step, if there is one, and returns it: the piece
    /// that moved stands where it came from and the destination holds what
    /// was captured. With an empty history nothing changes.
    pub fn undo(&mut self) -> (undone: Option<Step>)
        ensures
            old(self).wf() ==> final(self).wf(),
            match undone {
                Some(step) => {
                    &&& old(self).history().len() > 0
                    &&& step == old(self).history().last()
                    &&& final(self).history() == old(self).history().drop_last()
                    &&& final(self).board() == reverted(old(self).board(), step)
                },
                None => {
                    &&& old(self).history().len() == 0
                    &&& final(self).history() == old(self).history()
                    &&& final(self).board() == old(self).board()
                },
            },
    {
        match self.steps.pop() {
            Some(step) => {
                let moved = self.inner.get(step.to);
                self.inner.set(step.from, moved);
                self.inner.set(step.to, step.captured);
                Some(step)
            },
            None => None,
        }
    }
}

} // verus!
