//! The game: whose turn it is, which piece is picked up, and who has won.
//!
//! A [`BoardTracker`] wraps a [`BoardTrack`] and is driven by one operation,
//! [`BoardTracker::select`], which the caller invokes for every square the
//! player points at. Picking one's own piece selects it, picking it again
//! lets go of it, and picking one of its destinations plays the move. The
//! game ends when a general is captured.

use vstd::prelude::*;
use crate::chess::ChessBoard;
use crate::error::MoveError;
use crate::piece::{ChessPiece, ChessType, Side};
use crate::point::Point;
use crate::rules::legal_move;
use crate::track::{BoardTrack, Step, applied, follows, lemma_revert_applied, reverted};
use crate::xiangqi::listed;

verus! {

/// Where the game stands: a side is to move, or the game is over.
#[derive(Clone, Copy, Debug, PartialEq, Eq, Hash)]
pub enum State {
    /// The game is over; the winner, if there is one.
    Win(Option<Side>),
    /// The side whose turn it is.
    Go(Side),
}

/// What a call of [`BoardTracker::select`] did.
#[derive(Clone, Copy, Debug, PartialEq, Eq)]
pub enum Outcome {
    /// Nothing: the square means nothing to the side to move, or the game is
    /// over.
    Ignored,
    /// The piece on the square is now the selected one.
    Selected,
    /// The selected piece was let go of.
    Deselected,
    /// The selected piece moved to the square; the step that was committed.
    Moved(Step),
}

/// The piece picked up and the squares it may go to.
pub struct Selection {
    anchor: Point,
    destinations: Vec<Point>,
}

/// The state that follows a step by `side`: the game is won when the step
/// captured the other side's general, and else the other side is to move.
pub open spec fn state_after(side: Side, step: Step) -> State {
    if step.captured.holds(ChessType::General, side.other()) {
        State::Win(Some(side))
    } else {
        State::Go(side.other())
    }
}

/// The state that follows taking `step` back on `grid`: the side whose piece
/// stands on the step's destination is to move again. A committed step
/// leaves a piece on its destination; for an empty one the value has no
/// meaning.
pub open spec fn state_before(grid: Seq<ChessPiece>, step: Step) -> State {
    match grid[step.to.index()].0 {
        Some((_, side)) => State::Go(side),
        None => State::Win(None),
    }
}

/// Taking back a move that `side` just made gives the board as it was
/// before the move, square for square, and `side` to move again, whether the
/// move passed the turn or ended the game.
pub proof fn lemma_undo_restores(grid: Seq<ChessPiece>, side: Side, step: Step)
    requires
        grid.len() == 90,
        follows(grid, step),
        grid[step.from.index()].allied(side),
    ensures
        reverted(applied(grid, step), step) == grid,
        state_before(applied(grid, step), step) == State::Go(side),
{
    lemma_revert_applied(grid, step);
    crate::rules::lemma_origin_is_no_destination(grid, step.from.row(), step.from.col());
}

/// A move that captures the other side's general ends the game in favour of
/// the side that made it, and no other move ends the game.
pub proof fn lemma_capture_decides(side: Side, step: Step)
    ensures
        state_after(side, step) == State::Win(Some(side)) <==> step.captured.holds(
            ChessType::General,
            side.other(),
        ),
        state_after(side, step) != State::Win(Some(side)) ==> state_after(side, step) == State::Go(
            side.other(),
        ),
{
}

/// The board, the history, the turn and the selection.
pub struct BoardTracker {
    board: BoardTrack,
    state: State,
    selection: Option<Selection>,
}

impl BoardTracker {
    /// The board and its history.
    pub closed spec fn track(self) -> BoardTrack {
        self.board
    }

    /// Where the game stands.
    pub closed spec fn turn(self) -> State {
        self.state
    }

    /// The square of the selected piece, if one is selected.
    pub closed spec fn anchor(self) -> Option<Point> {
        match self.selection {
            Some(sel) => Some(sel.anchor),
            None => None,
        }
    }

    /// The destinations kept for the selected piece; empty when none is
    /// selected.
    pub closed spec fn targets(self) -> Seq<Point> {
        match self.selection {
            Some(sel) => sel.destinations@,
            None => Seq::empty(),
        }
    }

    /// The ninety squares of the board.
    pub open spec fn grid(self) -> Seq<ChessPiece> {
        self.track().board()
    }

    /// The history leads to the board, and a selection exists only while a
    /// side is to move, marks a piece of that side, and holds exactly the
    /// squares that piece may go to on the board as it stands.
    #[verifier::type_invariant]
    pub open spec fn wf(self) -> bool {
        &&& self.track().wf()
        &&& match self.anchor() {
            Some(a) => {
                &&& a.valid()
                &&& self.turn() matches State::Go(side) && self.grid()[a.index()].allied(side)
                &&& self.targets().no_duplicates()
                &&& forall|p: Point| #[trigger]
                    self.targets().contains(p) <==> p.valid() && legal_move(
                        self.grid(),
                        a.row(),
                        a.col(),
                        p.row(),
                        p.col(),
                    )
            },
            None => self.targets().len() == 0,
        }
    }

    /// What selecting square `at` does, by the state before the call.
    pub open spec fn response(self, at: Point) -> Outcome {
        match self.turn() {
            State::Win(_) => Outcome::Ignored,
            State::Go(side) => {
                if self.anchor() == Some(at) {
                    Outcome::Deselected
                } else if self.anchor() is Some && legal_move(
                    self.grid(),
                    self.anchor()->0.row(),
                    self.anchor()->0.col(),
                    at.row(),
                    at.col(),
                ) {
                    Outcome::Moved(
                        Step { from: self.anchor()->0, to: at, captured: self.grid()[at.index()] },
                    )
                } else if self.grid()[at.index()].allied(side) {
                    Outcome::Selected
                } else {
                    Outcome::Ignored
                }
            },
        }
    }

    /// Once the game is over, selecting any square does nothing.
    pub proof fn lemma_over_is_final(self, at: Point)
        requires
            self.turn() is Win,
        ensures
            self.response(at) == Outcome::Ignored,
    {
    }

    /// Selecting the selected piece again lets go of it.
    pub proof fn lemma_reselect_lets_go(self, at: Point)
        requires
            self.wf(),
            self.anchor() == Some(at),
        ensures
            self.response(at) == Outcome::Deselected,
    {
    }

    /// A move played through [`BoardTracker::select`] and taken back at once
    /// leaves the board, square for square, and the turn as they were before
    /// the move.
    pub proof fn lemma_move_then_undo(self, at: Point, step: Step)
        requires
            self.wf(),
            at.valid(),
            self.response(at) == Outcome::Moved(step),
        ensures
            reverted(applied(self.grid(), step), step) == self.grid(),
            state_before(applied(self.grid(), step), step) == self.turn(),
    {
        self.track().lemma_board_len();
        lemma_undo_restores(self.grid(), self.turn()->Go_0, step);
    }

    /// A new game: the opening position, Red to move, nothing selected.
    pub fn new() -> (game: BoardTracker)
        ensures
            game.wf(),
            crate::chess::is_opening(game.grid()),
            game.track().history().len() == 0,
            game.turn() == State::Go(Side::Red),
            game.anchor() is None,
    {
        BoardTracker { board: BoardTrack::new(), state: State::Go(Side::Red), selection: None }
    }

    /// Where the game stands.
    pub fn current_turn(&self) -> (state: State)
        ensures
            state == self.turn(),
    {
        self.state
    }

    /// The board and its history, to read.
    pub fn board_track(&self) -> (track: &BoardTrack)
        ensures
            *track == self.track(),
    {
        &self.board
    }

    /// The board as it stands.
    pub fn chess_board(&self) -> (board: &ChessBoard)
        ensures
            board@ == self.grid(),
    {
        self.board.chess_board()
    }

    /// The square of the selected piece, if one is selected.
    pub fn selected(&self) -> (at: Option<Point>)
        ensures
            at == self.anchor(),
    {
        match &self.selection {
            Some(sel) => Some(sel.anchor),
            None => None,
        }
    }

    /// Whether `p` is a destination of the selected piece.
    pub fn is_destination(&self, p: Point) -> (found: bool)
        ensures
            found == self.targets().contains(p),
    {
        match &self.selection {
            Some(sel) => listed(&sel.destinations, p),
            None => false,
        }
    }

    /// The squares that the piece on `from` may go to, whoever is to move.
    pub fn legal_destinations(&self, from: Point) -> (outcome: Result<Vec<Point>, MoveError>)
        ensures
            match outcome {
                Ok(list) => {
                    &&& list@.no_duplicates()
                    &&& !list@.contains(from)
                    &&& self.grid()[from.index()].0 is Some
                    &&& forall|p: Point| #[trigger]
                        list@.contains(p) <==> p.valid() && legal_move(
                            self.grid(),
                            from.row(),
                            from.col(),
                            p.row(),
                            p.col(),
                        )
                },
                Err(e) => e == MoveError::EmptySquareSelected && self.grid()[from.index()].0
                    is None,
            },
    {
        self.board.get_steps(from)
    }

    /// Handles the player pointing at square `at`.
    ///
    /// While a side is to move: the selected square itself lets go of the
    /// selection; a destination of the selected piece plays the move, clears
    /// the selection and passes the turn, or ends the game when a general was
    /// captured; a piece of the side to move becomes the selection. Anything
    /// else, and everything once the game is over, changes nothing.
    pub fn select(&mut self, at: Point) -> (outcome: Outcome)
        ensures
            final(self).wf(),
            outcome == old(self).response(at),
            match outcome {
                Outcome::Ignored => {
                    &&& final(self).track() == old(self).track()
                    &&& final(self).turn() == old(self).turn()
                    &&& final(self).anchor() == old(self).anchor()
                    &&& final(self).targets() == old(self).targets()
                },
                Outcome::Deselected => {
                    &&& final(self).track() == old(self).track()
                    &&& final(self).turn() == old(self).turn()
                    &&& final(self).anchor() is None
                },
                Outcome::Selected => {
                    &&& final(self).track() == old(self).track()
                    &&& final(self).turn() == old(self).turn()
                    &&& final(self).anchor() == Some(at)
                },
                Outcome::Moved(step) => {
                    &&& final(self).grid() == applied(old(self).grid(), step)
                    &&& final(self).track().history() == old(self).track().history().push(step)
                    &&& old(self).turn() matches State::Go(side) && final(self).turn()
                        == state_after(side, step)
                    &&& final(self).anchor() is None
                },
            },
    {
        proof {
            use_type_invariant(&*self);
            use_type_invariant(at);
        }
        let side = match self.state {
            State::Win(_) => {
                return Outcome::Ignored;
            },
            State::Go(side) => side,
        };
        let mut chosen: Option<Point> = None;
        let mut reachable = false;
        match &self.selection {
            Some(sel) => {
                chosen = Some(sel.anchor);
                reachable = listed(&sel.destinations, at);
            },
            None => {},
        }
        match chosen {
            Some(anchor) => {
                if anchor == at {
                    self.selection = None;
                    return Outcome::Deselected;
                }
                if reachable {
                    match self.board.attempt_step(anchor, at) {
                        Ok(pending) => {
                            let step = Step {
                                from: pending.from(),
                                to: pending.to(),
                                captured: pending.captured(),
                            };
                            self.selection = None;
                            // The track changes outside `self`, which is
                            // well formed at every point in between.
                            let mut board = BoardTrack::new();
                            std::mem::swap(&mut board, &mut self.board);
                            board.commit(pending);
                            std::mem::swap(&mut board, &mut self.board);
                            self.state = match step.captured.0 {
                                Some((ChessType::General, owner)) => {
                                    if owner == side {
                                        State::Go(side.opponent())
                                    } else {
                                        State::Win(Some(side))
                                    }
                                },
                                _ => State::Go(side.opponent()),
                            };
                            return Outcome::Moved(step);
                        },
                        Err(_) => {
                            return Outcome::Ignored;
                        },
                    }
                }
            },
            None => {},
        }
        if self.board.chess_board().get(at).same_side(side) {
            match self.board.get_steps(at) {
                Ok(destinations) => {
                    self.selection = Some(Selection { anchor: at, destinations });
                    Outcome::Selected
                },
                Err(_) => Outcome::Ignored,
            }
        } else {
            Outcome::Ignored
        }
    }

    /// Takes back the last move, if there is one, and returns its step. The
    /// selection is cleared and the side that made the move is to move again,
    /// also when the move had ended the game.
    pub fn undo_last_move(&mut self) -> (undone: Option<Step>)
        ensures
            final(self).wf(),
            match undone {
                Some(step) => {
                    &&& old(self).track().history().len() > 0
                    &&& step == old(self).track().history().last()
                    &&& final(self).track().history() == old(self).track().history().drop_last()
                    &&& final(self).grid() == reverted(old(self).grid(), step)
                    &&& final(self).turn() == state_before(old(self).grid(), step)
                    &&& final(self).turn() is Go
                    &&& final(self).anchor() is None
                },
                None => {
                    &&& old(self).track().history().len() == 0
                    &&& final(self).track().history() == old(self).track().history()
                    &&& final(self).grid() == old(self).grid()
                    &&& final(self).turn() == old(self).turn()
                    &&& final(self).anchor() == old(self).anchor()
                    &&& final(self).targets() == old(self).targets()
                },
            },
    {
        proof {
            use_type_invariant(&*self);
        }
        if self.board.len() == 0 {
            return None;
        }
        self.selection = None;
        let mut board = BoardTrack::new();
        std::mem::swap(&mut board, &mut self.board);
        let undone = board.undo();
        std::mem::swap(&mut board, &mut self.board);
        match undone {
            Some(step) => {
                match self.board.chess_board().get(step.from).0 {
                    Some((_, side)) => {
                        self.state = State::Go(side);
                    },
                    None => {},
                }
                Some(step)
            },
            None => None,
        }
    }
}

} // verus!
