//! The decisions of a two-player link over a network.
//!
//! Two engines play one game: the master owns the game and the slave follows
//! it. Each holds its own [`BoardTrack`]. A [`Server`] decides what a request
//! from the local player or a move that arrived from the peer leads to: it
//! applies the move or not, and says what to tell the local player and what
//! to send to the peer. Sockets and channels are the caller's business.
//!
//! On the wire a move is two bytes, the linear indices of the square it
//! leaves and of the square it goes to.

use vstd::prelude::*;
use crate::chess::ChessBoard;
use crate::error::MoveError;
use crate::piece::{ChessPiece, Side};
use crate::point::Point;
use crate::rules::legal_move;
use crate::track::{BoardTrack, Step, StepTransaction, applied};
use crate::xiangqi::secure;

verus! {

/// Which end of the link the engine is.
#[derive(Clone, Copy, Debug, PartialEq, Eq)]
pub enum State {
    /// The master, which owns the game; `network` is the side that the peer
    /// plays.
    Master { network: Side },
    /// The slave, which follows the master; `local` is the side that the
    /// local player plays.
    Slave { local: Side },
}

/// What a player asks for.
#[derive(Clone, Copy, Debug, PartialEq, Eq)]
pub enum Request {
    /// Move the piece on the first square to the second.
    MoveOperation(Point, Point),
    /// Take the last move back.
    RollbackOperation,
}

/// What the caller is to do after a decision.
#[derive(Clone, Copy, Debug, PartialEq, Eq)]
pub struct Reply {
    /// What to tell the local player, if anything.
    pub notify: Option<Request>,
    /// The two bytes to send to the peer, if any.
    pub wire: Option<(u8, u8)>,
}

/// The two bytes that stand for the move from `from` to `to`.
pub open spec fn wire_of(from: Point, to: Point) -> (u8, u8) {
    (from.index() as u8, to.index() as u8)
}

/// The two bytes that stand for the move from `from` to `to`.
pub fn encode(from: Point, to: Point) -> (bytes: (u8, u8))
    ensures
        bytes == wire_of(from, to),
        bytes.0 == from.index(),
        bytes.1 == to.index(),
{
    (from.raw() as u8, to.raw() as u8)
}

/// The move that two bytes from the wire stand for. A byte of 90 or more
/// names no square and the pair is refused with `InvalidCoordinate`.
pub fn decode(first: u8, second: u8) -> (outcome: Result<Request, MoveError>)
    ensures
        match outcome {
            Ok(request) => {
                &&& first < 90 && second < 90
                &&& request matches Request::MoveOperation(from, to) && from.valid() && to.valid()
                    && from.index() == first && to.index() == second
            },
            Err(e) => e == MoveError::InvalidCoordinate && (first >= 90 || second >= 90),
        },
{
    match secure(first as usize) {
        Ok(from) => match secure(second as usize) {
            Ok(to) => Ok(Request::MoveOperation(from, to)),
            Err(e) => Err(e),
        },
        Err(e) => Err(e),
    }
}

/// One end of the link: its board and which end it is.
pub struct Server {
    board: BoardTrack,
    state: State,
}

impl Server {
    /// The board and its history.
    pub closed spec fn track(self) -> BoardTrack {
        self.board
    }

    /// Which end of the link this is.
    pub closed spec fn role(self) -> State {
        self.state
    }

    /// The ninety squares of the board.
    pub open spec fn grid(self) -> Seq<ChessPiece> {
        self.track().board()
    }

    /// The history leads to the board.
    #[verifier::type_invariant]
    pub open spec fn wf(self) -> bool {
        self.track().wf()
    }

    /// Whether the local player may make the move from `from` to `to`. The
    /// move must be legal. A master with a peer moves only the pieces that the
    /// peer does not play, a master without one moves any piece, and a slave
    /// moves only the pieces of its own side.
    pub open spec fn grants(self, from: Point, to: Point, connected: bool) -> bool {
        &&& legal_move(self.grid(), from.row(), from.col(), to.row(), to.col())
        &&& match self.role() {
            State::Master { network } => !connected || self.grid()[from.index()].hostile(network),
            State::Slave { local } => self.grid()[from.index()].allied(local),
        }
    }

    /// Whether the move from the square with index `first` to the square with
    /// index `second` is taken from the peer. Both must be squares, the move
    /// must be legal, and a master takes only moves of the pieces that the
    /// peer plays.
    pub open spec fn takes(self, first: int, second: int) -> bool {
        &&& 0 <= first < 90
        &&& 0 <= second < 90
        &&& legal_move(self.grid(), first / 9, first % 9, second / 9, second % 9)
        &&& match self.role() {
            State::Master { network } => self.grid()[first].allied(network),
            State::Slave { local } => true,
        }
    }

    /// A new game at one end of the link.
    pub fn new(state: State) -> (server: Server)
        ensures
            server.wf(),
            server.role() == state,
            crate::chess::is_opening(server.grid()),
            server.track().history().len() == 0,
    {
        Server { board: BoardTrack::new(), state }
    }

    /// The board as it stands.
    pub fn chess_board(&self) -> (board: &ChessBoard)
        ensures
            board@ == self.grid(),
    {
        self.board.chess_board()
    }

    /// Which end of the link this is.
    pub fn state(&self) -> (state: State)
        ensures
            state == self.role(),
    {
        self.state
    }

    /// Commits a move that was just attempted on the board.
    fn apply(&mut self, pending: StepTransaction)
        requires
            old(self).track().admits(pending),
        ensures
            final(self).wf(),
            final(self).role() == old(self).role(),
            final(self).grid() == applied(old(self).grid(), pending.step()),
            final(self).track().history() == old(self).track().history().push(pending.step()),
    {
        proof {
            use_type_invariant(&*self);
        }
        // The track changes outside `self`, which is well formed at every
        // point in between.
        let mut board = BoardTrack::new();
        std::mem::swap(&mut board, &mut self.board);
        board.commit(pending);
        std::mem::swap(&mut board, &mut self.board);
    }

    /// Decides on a request of the local player; `connected` says whether a
    /// peer is there.
    ///
    /// A master applies a move that it grants, tells the local player, and
    /// sends the move to the peer if there is one. A slave changes nothing:
    /// it sends a move that it grants to the master and waits for the master
    /// to send it back. A request to take a move back is not served.
    pub fn request(&mut self, request: Request, connected: bool) -> (reply: Reply)
        ensures
            final(self).wf(),
            final(self).role() == old(self).role(),
            match request {
                Request::MoveOperation(from, to) => {
                    if old(self).grants(from, to, connected) {
                        match old(self).role() {
                            State::Master { network } => {
                                &&& final(self).grid() == applied(
                                    old(self).grid(),
                                    Step { from, to, captured: old(self).grid()[to.index()] },
                                )
                                &&& final(self).track().history() == old(
                                    self,
                                ).track().history().push(
                                    Step { from, to, captured: old(self).grid()[to.index()] },
                                )
                                &&& reply.notify == Some(request)
                                &&& reply.wire == (if connected {
                                    Some(wire_of(from, to))
                                } else {
                                    None
                                })
                            },
                            State::Slave { local } => {
                                &&& final(self).track() == old(self).track()
                                &&& reply.notify is None
                                &&& reply.wire == Some(wire_of(from, to))
                            },
                        }
                    } else {
                        &&& final(self).track() == old(self).track()
                        &&& reply.notify is None
                        &&& reply.wire is None
                    }
                },
                Request::RollbackOperation => {
                    &&& final(self).track() == old(self).track()
                    &&& reply.notify is None
                    &&& reply.wire is None
                },
            },
    {
        proof {
            use_type_invariant(&*self);
        }
        let nothing = Reply { notify: None, wire: None };
        match request {
            Request::MoveOperation(from, to) => {
                let piece = self.board.chess_board().get(from);
                match self.state {
                    State::Master { network } => {
                        if connected {
                            match piece.0 {
                                Some((_, side)) => {
                                    if side == network {
                                        return nothing;
                                    }
                                },
                                None => {
                                    return nothing;
                                },
                            }
                        }
                        match self.board.attempt_step(from, to) {
                            Ok(pending) => {
                                let wire = if connected {
                                    Some(encode(from, to))
                                } else {
                                    None
                                };
                                self.apply(pending);
                                Reply { notify: Some(request), wire }
                            },
                            Err(_) => nothing,
                        }
                    },
                    State::Slave { local } => {
                        let success = self.board.attempt_step(from, to).is_ok();
                        if success && piece.same_side(local) {
                            Reply { notify: None, wire: Some(encode(from, to)) }
                        } else {
                            nothing
                        }
                    },
                }
            },
            Request::RollbackOperation => nothing,
        }
    }

    /// Decides on two bytes that arrived from the peer.
    ///
    /// A pair that names two squares and a move that is taken is applied.
    /// The master then sends the same two bytes back to the peer, and the
    /// slave tells the local player of the move. Any other pair changes
    /// nothing and is dropped.
    pub fn receive(&mut self, first: u8, second: u8) -> (reply: Reply)
        ensures
            final(self).wf(),
            final(self).role() == old(self).role(),
            if old(self).takes(first as int, second as int) {
                let step = final(self).track().history().last();
                &&& final(self).track().history() == old(self).track().history().push(step)
                &&& step.from.valid() && step.from.index() == first
                &&& step.to.valid() && step.to.index() == second
                &&& step.captured == old(self).grid()[second as int]
                &&& final(self).grid() == applied(old(self).grid(), step)
                &&& match old(self).role() {
                    State::Master { network } => reply.notify is None && reply.wire == Some(
                        (first, second),
                    ),
                    State::Slave { local } => reply.notify == Some(
                        Request::MoveOperation(step.from, step.to),
                    ) && reply.wire is None,
                }
            } else {
                &&& final(self).track() == old(self).track()
                &&& reply.notify is None
                &&& reply.wire is None
            },
    {
        proof {
            use_type_invariant(&*self);
        }
        let nothing = Reply { notify: None, wire: None };
        let (from, to) = match decode(first, second) {
            Ok(Request::MoveOperation(from, to)) => (from, to),
            _ => {
                return nothing;
            },
        };
        let allowed = match self.state {
            State::Master { network } => self.board.chess_board().get(from).same_side(network),
            State::Slave { local } => true,
        };
        if !allowed {
            return nothing;
        }
        match self.board.attempt_step(from, to) {
            Ok(pending) => {
                self.apply(pending);
                match self.state {
                    State::Master { network } => Reply { notify: None, wire: Some((first, second)) },
                    State::Slave { local } => Reply {
                        notify: Some(Request::MoveOperation(from, to)),
                        wire: None,
                    },
                }
            },
            Err(_) => nothing,
        }
    }
}

} // verus!
