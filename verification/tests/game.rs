use chess::chess::ChessBoard;
use chess::error::MoveError;
use chess::game::{BoardTracker, Outcome, State};
use chess::piece::{ChessPiece, ChessType, Side};
use chess::point::Point;
use chess::track::Step;

fn sq(row: usize, col: usize) -> Point {
    Point::with_row_column(row, col).unwrap()
}

fn cells(board: &ChessBoard) -> Vec<ChessPiece> {
    let mut out = Vec::new();
    for row in 0..10 {
        for col in 0..9 {
            out.push(board.get(sq(row, col)));
        }
    }
    out
}

fn play(game: &mut BoardTracker, from: Point, to: Point) -> Step {
    assert_eq!(game.select(from), Outcome::Selected);
    match game.select(to) {
        Outcome::Moved(step) => step,
        other => panic!("expected a move, got {:?}", other),
    }
}

/// Plays until the two generals face each other on column 4, Black to move.
fn open_the_middle(game: &mut BoardTracker) {
    play(game, sq(3, 4), sq(4, 4));
    play(game, sq(6, 4), sq(5, 4));
    play(game, sq(4, 4), sq(5, 4));
    play(game, sq(6, 0), sq(5, 0));
    play(game, sq(5, 4), sq(5, 3));
}

#[test]
fn new_game_has_red_to_move() {
    let game = BoardTracker::new();
    assert_eq!(game.current_turn(), State::Go(Side::Red));
    assert_eq!(game.selected(), None);
    assert_eq!(game.board_track().len(), 0);
    assert_eq!(cells(game.chess_board()), cells(&ChessBoard::new()));
}

#[test]
fn selecting_an_own_piece_caches_its_destinations() {
    let mut game = BoardTracker::new();
    assert_eq!(game.select(sq(0, 1)), Outcome::Selected);
    assert_eq!(game.selected(), Some(sq(0, 1)));
    assert!(game.is_destination(sq(2, 0)));
    assert!(game.is_destination(sq(2, 2)));
    assert!(!game.is_destination(sq(1, 3)));
    assert!(!game.is_destination(sq(0, 1)));
    assert_eq!(game.current_turn(), State::Go(Side::Red));
}

#[test]
fn selecting_the_selected_piece_again_lets_go() {
    let mut game = BoardTracker::new();
    let before = cells(game.chess_board());
    assert_eq!(game.select(sq(2, 1)), Outcome::Selected);
    assert_eq!(game.select(sq(2, 1)), Outcome::Deselected);
    assert_eq!(game.selected(), None);
    assert!(!game.is_destination(sq(2, 2)));
    assert_eq!(game.current_turn(), State::Go(Side::Red));
    assert_eq!(cells(game.chess_board()), before);
    assert_eq!(game.board_track().len(), 0);
}

#[test]
fn selecting_another_own_piece_replaces_the_selection() {
    let mut game = BoardTracker::new();
    assert_eq!(game.select(sq(0, 1)), Outcome::Selected);
    assert_eq!(game.select(sq(3, 0)), Outcome::Selected);
    assert_eq!(game.selected(), Some(sq(3, 0)));
    assert!(game.is_destination(sq(4, 0)));
    assert!(!game.is_destination(sq(2, 2)));
}

#[test]
fn empty_squares_and_enemy_pieces_are_ignored() {
    let mut game = BoardTracker::new();
    assert_eq!(game.select(sq(4, 4)), Outcome::Ignored);
    assert_eq!(game.select(sq(9, 0)), Outcome::Ignored);
    assert_eq!(game.selected(), None);
    assert_eq!(game.select(sq(0, 0)), Outcome::Selected);
    assert_eq!(game.select(sq(5, 5)), Outcome::Ignored);
    assert_eq!(game.select(sq(6, 0)), Outcome::Ignored);
    assert_eq!(game.selected(), Some(sq(0, 0)));
    assert!(game.is_destination(sq(1, 0)));
    assert_eq!(game.current_turn(), State::Go(Side::Red));
    assert_eq!(game.board_track().len(), 0);
}

#[test]
fn a_move_passes_the_turn_and_clears_the_selection() {
    let mut game = BoardTracker::new();
    let step = play(&mut game, sq(3, 4), sq(4, 4));
    assert_eq!(step, Step { from: sq(3, 4), to: sq(4, 4), captured: ChessPiece(None) });
    assert_eq!(game.current_turn(), State::Go(Side::Black));
    assert_eq!(game.selected(), None);
    assert_eq!(game.board_track().len(), 1);
    assert_eq!(
        game.chess_board().get(sq(4, 4)),
        ChessPiece(Some((ChessType::Soldier, Side::Red)))
    );
    assert_eq!(game.select(sq(4, 4)), Outcome::Ignored);
    assert_eq!(game.select(sq(6, 4)), Outcome::Selected);
}

#[test]
fn a_capture_that_takes_no_general_passes_the_turn() {
    let mut game = BoardTracker::new();
    let step = play(&mut game, sq(2, 1), sq(9, 1));
    assert_eq!(step.captured, ChessPiece(Some((ChessType::Horse, Side::Black))));
    assert_eq!(game.current_turn(), State::Go(Side::Black));
}

#[test]
fn undo_after_a_move_restores_board_and_turn() {
    let mut game = BoardTracker::new();
    play(&mut game, sq(3, 4), sq(4, 4));
    let before = cells(game.chess_board());
    let turn = game.current_turn();
    let step = play(&mut game, sq(7, 1), sq(0, 1));
    assert_eq!(game.current_turn(), State::Go(Side::Red));
    assert_eq!(game.undo_last_move(), Some(step));
    assert_eq!(cells(game.chess_board()), before);
    assert_eq!(game.current_turn(), turn);
    assert_eq!(game.current_turn(), State::Go(Side::Black));
    assert_eq!(game.board_track().len(), 1);
}

#[test]
fn undo_clears_the_selection() {
    let mut game = BoardTracker::new();
    play(&mut game, sq(3, 4), sq(4, 4));
    assert_eq!(game.select(sq(6, 4)), Outcome::Selected);
    assert!(game.undo_last_move().is_some());
    assert_eq!(game.selected(), None);
    assert!(!game.is_destination(sq(5, 4)));
    assert_eq!(game.current_turn(), State::Go(Side::Red));
}

#[test]
fn undo_with_no_history_changes_nothing() {
    let mut game = BoardTracker::new();
    assert_eq!(game.select(sq(0, 0)), Outcome::Selected);
    assert_eq!(game.undo_last_move(), None);
    assert_eq!(game.selected(), Some(sq(0, 0)));
    assert!(game.is_destination(sq(1, 0)));
    assert_eq!(game.current_turn(), State::Go(Side::Red));
}

#[test]
fn capturing_the_general_ends_the_game() {
    let mut game = BoardTracker::new();
    open_the_middle(&mut game);
    assert_eq!(game.current_turn(), State::Go(Side::Black));
    let mut red = game.legal_destinations(sq(0, 4)).unwrap();
    red.sort_by_key(|p| p.raw());
    assert_eq!(red, vec![sq(1, 4), sq(9, 4)]);
    let mut black = game.legal_destinations(sq(9, 4)).unwrap();
    black.sort_by_key(|p| p.raw());
    assert_eq!(black, vec![sq(0, 4), sq(8, 4)]);
    let step = play(&mut game, sq(9, 4), sq(0, 4));
    assert_eq!(step.captured, ChessPiece(Some((ChessType::General, Side::Red))));
    assert_eq!(game.current_turn(), State::Win(Some(Side::Black)));
    assert_eq!(game.selected(), None);
}

#[test]
fn nothing_moves_once_the_game_is_over() {
    let mut game = BoardTracker::new();
    open_the_middle(&mut game);
    play(&mut game, sq(9, 4), sq(0, 4));
    let before = cells(game.chess_board());
    let moves = game.board_track().len();
    for row in 0..10 {
        for col in 0..9 {
            assert_eq!(game.select(sq(row, col)), Outcome::Ignored);
            assert_eq!(game.selected(), None);
        }
    }
    assert_eq!(cells(game.chess_board()), before);
    assert_eq!(game.board_track().len(), moves);
    assert_eq!(game.current_turn(), State::Win(Some(Side::Black)));
}

#[test]
fn undo_reopens_a_finished_game() {
    let mut game = BoardTracker::new();
    open_the_middle(&mut game);
    let before = cells(game.chess_board());
    let step = play(&mut game, sq(9, 4), sq(0, 4));
    assert_eq!(game.undo_last_move(), Some(step));
    assert_eq!(game.current_turn(), State::Go(Side::Black));
    assert_eq!(cells(game.chess_board()), before);
    assert_eq!(
        game.chess_board().get(sq(0, 4)),
        ChessPiece(Some((ChessType::General, Side::Red)))
    );
    assert_eq!(game.select(sq(9, 4)), Outcome::Selected);
    assert!(game.is_destination(sq(0, 4)));
}

#[test]
fn legal_destinations_of_an_empty_square_is_an_error() {
    let game = BoardTracker::new();
    assert_eq!(game.legal_destinations(sq(5, 5)), Err(MoveError::EmptySquareSelected));
    assert_eq!(game.legal_destinations(sq(6, 0)).unwrap(), vec![sq(5, 0)]);
}
