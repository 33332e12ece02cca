use chess::chess::ChessBoard;
use chess::chess_rule::{bishop_move_check, knight_move_check, pawn_move_check, rook_move_check};
use chess::error::MoveError;
use chess::piece::{ChessPiece, ChessType, Side};
use chess::point::{Point, Vector};
use chess::server::{decode, encode, Reply, Request, Server, State};

fn sq(row: usize, col: usize) -> Point {
    Point::with_row_column(row, col).unwrap()
}

fn op(from: (usize, usize), to: (usize, usize)) -> Vector {
    Vector::new(sq(from.0, from.1), sq(to.0, to.1))
}

fn empty() -> ChessBoard {
    ChessBoard([ChessPiece(None); 90])
}

fn cells(board: &ChessBoard) -> Vec<ChessPiece> {
    let mut out = Vec::new();
    for row in 0..10 {
        for col in 0..9 {
            out.push(board.get(sq(row, col)));
        }
    }
    out
}

const NOTHING: Reply = Reply { notify: None, wire: None };

#[test]
fn encode_gives_the_two_linear_indices() {
    assert_eq!(encode(sq(0, 0), sq(9, 8)), (0, 89));
    assert_eq!(encode(sq(3, 4), sq(4, 4)), (31, 40));
    assert_eq!(encode(sq(1, 8), sq(2, 0)), (17, 18));
}

#[test]
fn decode_reads_back_what_encode_wrote() {
    for a in 0..90u8 {
        for b in [0u8, 1, 17, 44, 89] {
            match decode(a, b) {
                Ok(Request::MoveOperation(from, to)) => {
                    assert_eq!(from.raw(), a as usize);
                    assert_eq!(to.raw(), b as usize);
                    assert_eq!(encode(from, to), (a, b));
                }
                other => panic!("unexpected {:?}", other),
            }
        }
    }
}

#[test]
fn decode_rejects_bytes_from_ninety() {
    assert_eq!(decode(90, 0), Err(MoveError::InvalidCoordinate));
    assert_eq!(decode(0, 90), Err(MoveError::InvalidCoordinate));
    assert_eq!(decode(255, 255), Err(MoveError::InvalidCoordinate));
    assert_eq!(decode(0x10, 0x00), Ok(Request::MoveOperation(sq(1, 7), sq(0, 0))));
}

#[test]
fn master_without_a_peer_moves_either_side() {
    let mut server = Server::new(State::Master { network: Side::Black });
    let first = Request::MoveOperation(sq(3, 4), sq(4, 4));
    assert_eq!(server.request(first, false), Reply { notify: Some(first), wire: None });
    let second = Request::MoveOperation(sq(6, 4), sq(5, 4));
    assert_eq!(server.request(second, false), Reply { notify: Some(second), wire: None });
    assert_eq!(
        server.chess_board().get(sq(5, 4)),
        ChessPiece(Some((ChessType::Soldier, Side::Black)))
    );
}

#[test]
fn master_with_a_peer_moves_only_its_own_pieces() {
    let mut server = Server::new(State::Master { network: Side::Black });
    let before = cells(server.chess_board());
    assert_eq!(server.request(Request::MoveOperation(sq(6, 4), sq(5, 4)), true), NOTHING);
    assert_eq!(server.request(Request::MoveOperation(sq(4, 4), sq(5, 4)), true), NOTHING);
    assert_eq!(server.request(Request::MoveOperation(sq(3, 4), sq(5, 4)), true), NOTHING);
    assert_eq!(cells(server.chess_board()), before);
    let own = Request::MoveOperation(sq(3, 4), sq(4, 4));
    assert_eq!(server.request(own, true), Reply { notify: Some(own), wire: Some((31, 40)) });
    assert_eq!(server.chess_board().get(sq(3, 4)), ChessPiece(None));
    assert_eq!(server.state(), State::Master { network: Side::Black });
}

#[test]
fn master_takes_the_peers_moves_and_echoes_them() {
    let mut server = Server::new(State::Master { network: Side::Black });
    let before = cells(server.chess_board());
    assert_eq!(server.receive(31, 40), NOTHING);
    assert_eq!(server.receive(90, 40), NOTHING);
    assert_eq!(server.receive(58, 40), NOTHING);
    assert_eq!(cells(server.chess_board()), before);
    assert_eq!(server.receive(58, 49), Reply { notify: None, wire: Some((58, 49)) });
    assert_eq!(
        server.chess_board().get(sq(5, 4)),
        ChessPiece(Some((ChessType::Soldier, Side::Black)))
    );
    assert_eq!(server.chess_board().get(sq(6, 4)), ChessPiece(None));
}

#[test]
fn slave_sends_its_own_moves_and_waits() {
    let mut server = Server::new(State::Slave { local: Side::Black });
    let before = cells(server.chess_board());
    assert_eq!(server.request(Request::MoveOperation(sq(3, 4), sq(4, 4)), true), NOTHING);
    assert_eq!(server.request(Request::MoveOperation(sq(6, 4), sq(4, 4)), true), NOTHING);
    assert_eq!(
        server.request(Request::MoveOperation(sq(6, 4), sq(5, 4)), true),
        Reply { notify: None, wire: Some((58, 49)) }
    );
    assert_eq!(cells(server.chess_board()), before);
}

#[test]
fn slave_applies_what_the_master_sends() {
    let mut server = Server::new(State::Slave { local: Side::Black });
    let before = cells(server.chess_board());
    assert_eq!(server.receive(31, 49), NOTHING);
    assert_eq!(server.receive(31, 200), NOTHING);
    assert_eq!(cells(server.chess_board()), before);
    assert_eq!(
        server.receive(31, 40),
        Reply { notify: Some(Request::MoveOperation(sq(3, 4), sq(4, 4))), wire: None }
    );
    assert_eq!(
        server.chess_board().get(sq(4, 4)),
        ChessPiece(Some((ChessType::Soldier, Side::Red)))
    );
    assert_eq!(
        server.receive(58, 49),
        Reply { notify: Some(Request::MoveOperation(sq(6, 4), sq(5, 4))), wire: None }
    );
}

#[test]
fn rollback_is_not_served() {
    let mut master = Server::new(State::Master { network: Side::Red });
    assert_eq!(master.request(Request::RollbackOperation, true), NOTHING);
    let mut slave = Server::new(State::Slave { local: Side::Red });
    assert_eq!(slave.request(Request::RollbackOperation, false), NOTHING);
}

#[test]
fn pawn_check_knows_forward_and_the_river() {
    let board = empty();
    assert!(pawn_move_check(op((3, 4), (4, 4)), Side::Red, &board));
    assert!(!pawn_move_check(op((3, 4), (2, 4)), Side::Red, &board));
    assert!(!pawn_move_check(op((4, 4), (4, 5)), Side::Red, &board));
    assert!(pawn_move_check(op((5, 4), (5, 5)), Side::Red, &board));
    assert!(pawn_move_check(op((5, 4), (5, 3)), Side::Red, &board));
    assert!(!pawn_move_check(op((5, 4), (7, 4)), Side::Red, &board));
    assert!(!pawn_move_check(op((5, 4), (6, 5)), Side::Red, &board));
    assert!(!pawn_move_check(op((5, 4), (5, 4)), Side::Red, &board));
    assert!(pawn_move_check(op((6, 4), (5, 4)), Side::Black, &board));
    assert!(!pawn_move_check(op((6, 4), (7, 4)), Side::Black, &board));
    assert!(!pawn_move_check(op((5, 4), (5, 5)), Side::Black, &board));
    assert!(pawn_move_check(op((4, 4), (4, 5)), Side::Black, &board));
}

#[test]
fn rook_check_wants_a_clear_line() {
    let mut board = empty();
    board.set(sq(4, 6), ChessPiece(Some((ChessType::Soldier, Side::Red))));
    assert!(rook_move_check(op((4, 0), (4, 5)), Side::Red, &board));
    assert!(rook_move_check(op((4, 0), (4, 6)), Side::Red, &board));
    assert!(!rook_move_check(op((4, 0), (4, 7)), Side::Red, &board));
    assert!(!rook_move_check(op((4, 8), (4, 0)), Side::Red, &board));
    assert!(rook_move_check(op((4, 8), (4, 7)), Side::Red, &board));
    assert!(rook_move_check(op((9, 6), (5, 6)), Side::Red, &board));
    assert!(!rook_move_check(op((9, 6), (0, 6)), Side::Red, &board));
    assert!(rook_move_check(op((0, 0), (9, 0)), Side::Black, &board));
    assert!(!rook_move_check(op((0, 0), (0, 0)), Side::Black, &board));
    assert!(!rook_move_check(op((0, 0), (1, 1)), Side::Black, &board));
}

#[test]
fn knight_check_wants_an_empty_leg() {
    let mut board = empty();
    assert!(knight_move_check(op((4, 4), (6, 5)), Side::Red, &board));
    assert!(knight_move_check(op((4, 4), (3, 2)), Side::Red, &board));
    assert!(!knight_move_check(op((4, 4), (7, 4)), Side::Red, &board));
    assert!(!knight_move_check(op((4, 4), (4, 7)), Side::Red, &board));
    assert!(!knight_move_check(op((4, 4), (5, 5)), Side::Red, &board));
    board.set(sq(5, 4), ChessPiece(Some((ChessType::Soldier, Side::Black))));
    assert!(!knight_move_check(op((4, 4), (6, 5)), Side::Red, &board));
    assert!(!knight_move_check(op((4, 4), (6, 3)), Side::Red, &board));
    assert!(knight_move_check(op((4, 4), (5, 6)), Side::Red, &board));
    assert!(knight_move_check(op((4, 4), (2, 3)), Side::Red, &board));
    board.set(sq(4, 3), ChessPiece(Some((ChessType::Soldier, Side::Red))));
    assert!(!knight_move_check(op((4, 4), (3, 2)), Side::Red, &board));
    assert!(!knight_move_check(op((4, 4), (5, 2)), Side::Red, &board));
}

#[test]
fn bishop_check_wants_an_empty_eye() {
    let mut board = empty();
    assert!(bishop_move_check(op((0, 2), (2, 4)), Side::Red, &board));
    assert!(bishop_move_check(op((2, 4), (0, 2)), Side::Red, &board));
    assert!(bishop_move_check(op((4, 2), (6, 0)), Side::Red, &board));
    assert!(!bishop_move_check(op((0, 2), (1, 3)), Side::Red, &board));
    assert!(!bishop_move_check(op((0, 2), (2, 2)), Side::Red, &board));
    assert!(!bishop_move_check(op((0, 2), (0, 6)), Side::Red, &board));
    board.set(sq(1, 3), ChessPiece(Some((ChessType::Soldier, Side::Black))));
    assert!(!bishop_move_check(op((0, 2), (2, 4)), Side::Red, &board));
    assert!(!bishop_move_check(op((2, 4), (0, 2)), Side::Red, &board));
    assert!(bishop_move_check(op((0, 2), (2, 0)), Side::Red, &board));
}
