use chess::chess::ChessBoard;
use chess::error::MoveError;
use chess::piece::{ChessPiece, ChessType, Side};
use chess::point::Point;
use chess::xiangqi::{bing, calculate_operators, che, jiang, listed, ma, pao, secure, shi, xiang};

fn empty() -> ChessBoard {
    ChessBoard([ChessPiece(None); 90])
}

fn at(row: usize, col: usize) -> Point {
    Point::with_row_column(row, col).unwrap()
}

fn put(board: &mut ChessBoard, row: usize, col: usize, kind: ChessType, side: Side) {
    board.set(at(row, col), ChessPiece(Some((kind, side))));
}

fn squares(list: Vec<Point>) -> Vec<(usize, usize)> {
    let mut out: Vec<(usize, usize)> = list.iter().map(|p| (p.y(), p.x())).collect();
    out.sort();
    out
}

fn moves(board: &ChessBoard, row: usize, col: usize) -> Vec<(usize, usize)> {
    squares(calculate_operators(board, at(row, col)).unwrap())
}

#[test]
fn opening_destinations_never_hold_the_origin() {
    let board = ChessBoard::new();
    for row in 0..10 {
        for col in 0..9 {
            let from = at(row, col);
            match calculate_operators(&board, from) {
                Ok(list) => {
                    let owner = board.get(from).0.unwrap().1;
                    assert!(!list.contains(&from));
                    for (i, p) in list.iter().enumerate() {
                        assert!(!board.get(*p).same_side(owner));
                        assert!(!list[..i].contains(p));
                    }
                }
                Err(e) => {
                    assert_eq!(e, MoveError::EmptySquareSelected);
                    assert_eq!(board.get(from), ChessPiece(None));
                }
            }
        }
    }
}

#[test]
fn opening_gives_each_side_forty_four_moves() {
    let board = ChessBoard::new();
    let mut red = 0;
    let mut black = 0;
    for row in 0..10 {
        for col in 0..9 {
            let from = at(row, col);
            if let Ok(list) = calculate_operators(&board, from) {
                match board.get(from).0.unwrap().1 {
                    Side::Red => red += list.len(),
                    Side::Black => black += list.len(),
                }
            }
        }
    }
    assert_eq!(red, 44);
    assert_eq!(black, 44);
}

#[test]
fn opening_moves_by_kind() {
    let board = ChessBoard::new();
    assert_eq!(moves(&board, 0, 0), vec![(1, 0), (2, 0)]);
    assert_eq!(moves(&board, 0, 1), vec![(2, 0), (2, 2)]);
    assert_eq!(moves(&board, 0, 2), vec![(2, 0), (2, 4)]);
    assert_eq!(moves(&board, 0, 3), vec![(1, 4)]);
    assert_eq!(moves(&board, 0, 4), vec![(1, 4)]);
    assert_eq!(
        moves(&board, 2, 1),
        vec![
            (1, 1),
            (2, 0),
            (2, 2),
            (2, 3),
            (2, 4),
            (2, 5),
            (2, 6),
            (3, 1),
            (4, 1),
            (5, 1),
            (6, 1),
            (9, 1)
        ]
    );
    assert_eq!(moves(&board, 9, 4), vec![(8, 4)]);
    assert_eq!(moves(&board, 9, 7), vec![(7, 6), (7, 8)]);
    assert_eq!(moves(&board, 6, 8), vec![(5, 8)]);
}

#[test]
fn opening_soldier_has_one_step_forward() {
    let board = ChessBoard::new();
    for col in [0, 2, 4, 6, 8] {
        assert_eq!(squares(bing(&board, at(3, col), Side::Red)), vec![(4, col)]);
        assert_eq!(squares(bing(&board, at(6, col), Side::Black)), vec![(5, col)]);
        assert_eq!(calculate_operators(&board, at(3, col)).unwrap().len(), 1);
    }
}

#[test]
fn soldier_moves_sideways_only_across_the_river() {
    let board = empty();
    assert_eq!(squares(bing(&board, at(4, 4), Side::Red)), vec![(5, 4)]);
    assert_eq!(squares(bing(&board, at(5, 4), Side::Red)), vec![(5, 3), (5, 5), (6, 4)]);
    assert_eq!(squares(bing(&board, at(5, 4), Side::Black)), vec![(4, 4)]);
    assert_eq!(squares(bing(&board, at(4, 4), Side::Black)), vec![(3, 4), (4, 3), (4, 5)]);
}

#[test]
fn soldier_never_moves_backward_and_stops_at_the_edges() {
    let board = empty();
    assert_eq!(squares(bing(&board, at(9, 4), Side::Red)), vec![(9, 3), (9, 5)]);
    assert_eq!(squares(bing(&board, at(0, 4), Side::Black)), vec![(0, 3), (0, 5)]);
    assert_eq!(squares(bing(&board, at(9, 0), Side::Red)), vec![(9, 1)]);
    assert_eq!(squares(bing(&board, at(7, 8), Side::Red)), vec![(7, 7), (8, 8)]);
    assert_eq!(squares(bing(&board, at(0, 0), Side::Black)), vec![(0, 1)]);
}

#[test]
fn soldier_captures_enemies_and_not_allies() {
    let mut board = empty();
    put(&mut board, 6, 4, ChessType::Horse, Side::Black);
    put(&mut board, 5, 3, ChessType::Horse, Side::Red);
    put(&mut board, 5, 5, ChessType::Cannon, Side::Black);
    assert_eq!(squares(bing(&board, at(5, 4), Side::Red)), vec![(5, 5), (6, 4)]);
}

#[test]
fn chariot_slides_until_blocked() {
    let mut board = empty();
    put(&mut board, 4, 4, ChessType::Chariot, Side::Red);
    put(&mut board, 4, 6, ChessType::Soldier, Side::Red);
    put(&mut board, 4, 1, ChessType::Soldier, Side::Black);
    put(&mut board, 7, 4, ChessType::Horse, Side::Black);
    put(&mut board, 8, 4, ChessType::Horse, Side::Black);
    assert_eq!(
        squares(che(&board, at(4, 4), Side::Red)),
        vec![
            (0, 4),
            (1, 4),
            (2, 4),
            (3, 4),
            (4, 1),
            (4, 2),
            (4, 3),
            (4, 5),
            (5, 4),
            (6, 4),
            (7, 4)
        ]
    );
}

#[test]
fn chariot_on_an_empty_board_has_seventeen_destinations() {
    let board = empty();
    for row in 0..10 {
        for col in 0..9 {
            let list = che(&board, at(row, col), Side::Black);
            assert_eq!(list.len(), 17);
            assert!(list.iter().all(|p| (p.y() == row) != (p.x() == col)));
        }
    }
}

#[test]
fn cannon_captures_over_exactly_one_screen() {
    let mut board = empty();
    put(&mut board, 4, 0, ChessType::Cannon, Side::Red);
    put(&mut board, 4, 3, ChessType::Soldier, Side::Red);
    put(&mut board, 4, 6, ChessType::Chariot, Side::Black);
    let list = squares(pao(&board, at(4, 0), Side::Red));
    assert!(list.contains(&(4, 6)));
    assert!(list.contains(&(4, 1)));
    assert!(list.contains(&(4, 2)));
    assert!(!list.contains(&(4, 3)));
    assert!(!list.contains(&(4, 4)));
    assert!(!list.contains(&(4, 5)));
    assert!(!list.contains(&(4, 7)));
    assert_eq!(
        list,
        vec![
            (0, 0),
            (1, 0),
            (2, 0),
            (3, 0),
            (4, 1),
            (4, 2),
            (4, 6),
            (5, 0),
            (6, 0),
            (7, 0),
            (8, 0),
            (9, 0)
        ]
    );
}

#[test]
fn cannon_does_not_capture_without_a_screen() {
    let mut board = empty();
    put(&mut board, 4, 0, ChessType::Cannon, Side::Red);
    put(&mut board, 4, 6, ChessType::Chariot, Side::Black);
    let list = squares(pao(&board, at(4, 0), Side::Red));
    assert!(!list.contains(&(4, 6)));
    assert!(list.contains(&(4, 5)));
    assert!(!list.contains(&(4, 7)));
}

#[test]
fn cannon_does_not_capture_over_two_screens() {
    let mut board = empty();
    put(&mut board, 4, 0, ChessType::Cannon, Side::Red);
    put(&mut board, 4, 2, ChessType::Soldier, Side::Black);
    put(&mut board, 4, 4, ChessType::Soldier, Side::Red);
    put(&mut board, 4, 6, ChessType::Chariot, Side::Black);
    let list = squares(pao(&board, at(4, 0), Side::Red));
    assert!(!list.contains(&(4, 6)));
    assert!(!list.contains(&(4, 4)));
    assert!(list.contains(&(4, 1)));
    assert!(!list.contains(&(4, 2)));
    assert!(!list.contains(&(4, 3)));
}

#[test]
fn cannon_does_not_capture_its_own_side() {
    let mut board = empty();
    put(&mut board, 4, 4, ChessType::Cannon, Side::Black);
    put(&mut board, 6, 4, ChessType::Soldier, Side::Red);
    put(&mut board, 8, 4, ChessType::Chariot, Side::Black);
    put(&mut board, 9, 4, ChessType::Chariot, Side::Red);
    put(&mut board, 4, 8, ChessType::Horse, Side::Red);
    let list = squares(pao(&board, at(4, 4), Side::Black));
    assert!(list.contains(&(5, 4)));
    assert!(!list.contains(&(6, 4)));
    assert!(!list.contains(&(7, 4)));
    assert!(!list.contains(&(8, 4)));
    assert!(!list.contains(&(9, 4)));
    assert!(list.contains(&(4, 7)));
    assert!(!list.contains(&(4, 8)));
}

#[test]
fn horse_is_blocked_by_its_leg() {
    let mut board = empty();
    put(&mut board, 4, 4, ChessType::Horse, Side::Red);
    assert_eq!(
        squares(ma(&board, at(4, 4), Side::Red)),
        vec![(2, 3), (2, 5), (3, 2), (3, 6), (5, 2), (5, 6), (6, 3), (6, 5)]
    );
    put(&mut board, 3, 4, ChessType::Soldier, Side::Black);
    assert_eq!(
        squares(ma(&board, at(4, 4), Side::Red)),
        vec![(3, 2), (3, 6), (5, 2), (5, 6), (6, 3), (6, 5)]
    );
    put(&mut board, 4, 5, ChessType::Soldier, Side::Red);
    assert_eq!(
        squares(ma(&board, at(4, 4), Side::Red)),
        vec![(3, 2), (5, 2), (6, 3), (6, 5)]
    );
    put(&mut board, 5, 5, ChessType::Soldier, Side::Black);
    put(&mut board, 3, 3, ChessType::Soldier, Side::Black);
    assert_eq!(
        squares(ma(&board, at(4, 4), Side::Red)),
        vec![(3, 2), (5, 2), (6, 3), (6, 5)]
    );
}

#[test]
fn horse_lands_on_enemies_and_not_on_allies() {
    let mut board = empty();
    put(&mut board, 0, 0, ChessType::Horse, Side::Black);
    put(&mut board, 2, 1, ChessType::Cannon, Side::Red);
    put(&mut board, 1, 2, ChessType::Cannon, Side::Black);
    assert_eq!(squares(ma(&board, at(0, 0), Side::Black)), vec![(2, 1)]);
    assert_eq!(squares(ma(&board, at(0, 0), Side::Red)), vec![(1, 2)]);
}

#[test]
fn elephant_is_blocked_by_its_eye() {
    let mut board = empty();
    put(&mut board, 2, 4, ChessType::Elephant, Side::Red);
    assert_eq!(
        squares(xiang(&board, at(2, 4), Side::Red)),
        vec![(0, 2), (0, 6), (4, 2), (4, 6)]
    );
    put(&mut board, 3, 5, ChessType::Soldier, Side::Black);
    assert_eq!(squares(xiang(&board, at(2, 4), Side::Red)), vec![(0, 2), (0, 6), (4, 2)]);
    put(&mut board, 1, 3, ChessType::Soldier, Side::Red);
    assert_eq!(squares(xiang(&board, at(2, 4), Side::Red)), vec![(0, 6), (4, 2)]);
    put(&mut board, 4, 6, ChessType::Chariot, Side::Black);
    assert_eq!(squares(xiang(&board, at(2, 4), Side::Red)), vec![(0, 6), (4, 2)]);
}

#[test]
fn elephant_captures_and_respects_the_edges() {
    let mut board = empty();
    put(&mut board, 0, 2, ChessType::Elephant, Side::Red);
    put(&mut board, 2, 0, ChessType::Cannon, Side::Black);
    put(&mut board, 2, 4, ChessType::Cannon, Side::Red);
    assert_eq!(squares(xiang(&board, at(0, 2), Side::Red)), vec![(2, 0)]);
    assert_eq!(squares(xiang(&board, at(4, 2), Side::Red)), vec![(2, 0), (6, 0), (6, 4)]);
    assert_eq!(squares(xiang(&board, at(9, 8), Side::Black)), vec![(7, 6)]);
}

#[test]
fn guard_moves_between_the_centre_and_the_corners() {
    let board = empty();
    assert_eq!(
        squares(shi(&board, at(1, 4), Side::Red)),
        vec![(0, 3), (0, 5), (2, 3), (2, 5)]
    );
    for (row, col) in [(0, 3), (0, 5), (2, 3), (2, 5)] {
        assert_eq!(squares(shi(&board, at(row, col), Side::Red)), vec![(1, 4)]);
    }
    assert_eq!(
        squares(shi(&board, at(8, 4), Side::Black)),
        vec![(7, 3), (7, 5), (9, 3), (9, 5)]
    );
    for (row, col) in [(7, 3), (7, 5), (9, 3), (9, 5)] {
        assert_eq!(squares(shi(&board, at(row, col), Side::Black)), vec![(8, 4)]);
    }
}

#[test]
fn guard_off_its_five_squares_has_no_destination() {
    let board = empty();
    for (row, col) in [(0, 4), (1, 3), (1, 5), (2, 4), (3, 4), (3, 3), (4, 4), (1, 2), (8, 4)] {
        assert_eq!(squares(shi(&board, at(row, col), Side::Red)), vec![]);
    }
    for (row, col) in [(9, 4), (8, 3), (8, 5), (7, 4), (6, 4), (6, 5), (1, 4)] {
        assert_eq!(squares(shi(&board, at(row, col), Side::Black)), vec![]);
    }
}

#[test]
fn guard_captures_enemies_and_not_allies() {
    let mut board = empty();
    put(&mut board, 0, 3, ChessType::Guard, Side::Red);
    put(&mut board, 2, 5, ChessType::Horse, Side::Black);
    assert_eq!(
        squares(shi(&board, at(1, 4), Side::Red)),
        vec![(0, 5), (2, 3), (2, 5)]
    );
}

#[test]
fn general_stays_in_its_palace() {
    let board = empty();
    assert_eq!(squares(jiang(&board, at(0, 4), Side::Red)), vec![(0, 3), (0, 5), (1, 4)]);
    assert_eq!(squares(jiang(&board, at(0, 3), Side::Red)), vec![(0, 4), (1, 3)]);
    assert_eq!(squares(jiang(&board, at(2, 5), Side::Red)), vec![(1, 5), (2, 4)]);
    assert_eq!(
        squares(jiang(&board, at(1, 4), Side::Red)),
        vec![(0, 4), (1, 3), (1, 5), (2, 4)]
    );
    assert_eq!(squares(jiang(&board, at(9, 4), Side::Black)), vec![(8, 4), (9, 3), (9, 5)]);
    assert_eq!(squares(jiang(&board, at(7, 3), Side::Black)), vec![(7, 4), (8, 3)]);
}

#[test]
fn general_outside_its_palace_can_only_step_back_in() {
    let board = empty();
    assert_eq!(squares(jiang(&board, at(3, 4), Side::Red)), vec![(2, 4)]);
    assert_eq!(squares(jiang(&board, at(5, 4), Side::Red)), vec![]);
    assert_eq!(squares(jiang(&board, at(1, 2), Side::Red)), vec![(1, 3)]);
    assert_eq!(squares(jiang(&board, at(8, 6), Side::Black)), vec![(8, 5)]);
}

#[test]
fn generals_that_face_each_other_can_capture() {
    let mut board = empty();
    put(&mut board, 0, 4, ChessType::General, Side::Red);
    put(&mut board, 9, 4, ChessType::General, Side::Black);
    assert_eq!(
        squares(jiang(&board, at(0, 4), Side::Red)),
        vec![(0, 3), (0, 5), (1, 4), (9, 4)]
    );
    assert_eq!(
        squares(jiang(&board, at(9, 4), Side::Black)),
        vec![(0, 4), (8, 4), (9, 3), (9, 5)]
    );
    assert_eq!(moves(&board, 0, 4), vec![(0, 3), (0, 5), (1, 4), (9, 4)]);
}

#[test]
fn a_piece_between_the_generals_stops_the_capture() {
    for row in 1..9 {
        for (kind, side) in [(ChessType::Soldier, Side::Red), (ChessType::Cannon, Side::Black)] {
            let mut board = empty();
            put(&mut board, 0, 4, ChessType::General, Side::Red);
            put(&mut board, 9, 4, ChessType::General, Side::Black);
            put(&mut board, row, 4, kind, side);
            assert!(!listed(&jiang(&board, at(0, 4), Side::Red), at(9, 4)));
            assert!(!listed(&jiang(&board, at(9, 4), Side::Black), at(0, 4)));
        }
    }
}

#[test]
fn generals_on_different_columns_do_not_see_each_other() {
    let mut board = empty();
    put(&mut board, 0, 4, ChessType::General, Side::Red);
    put(&mut board, 9, 3, ChessType::General, Side::Black);
    assert_eq!(squares(jiang(&board, at(0, 4), Side::Red)), vec![(0, 3), (0, 5), (1, 4)]);
    assert_eq!(squares(jiang(&board, at(9, 3), Side::Black)), vec![(8, 3), (9, 4)]);
}

#[test]
fn general_looks_only_ahead_and_only_at_a_general() {
    let mut board = empty();
    put(&mut board, 2, 4, ChessType::General, Side::Red);
    put(&mut board, 0, 4, ChessType::General, Side::Black);
    assert_eq!(
        squares(jiang(&board, at(2, 4), Side::Red)),
        vec![(1, 4), (2, 3), (2, 5)]
    );
    let mut board = empty();
    put(&mut board, 0, 4, ChessType::General, Side::Red);
    put(&mut board, 9, 4, ChessType::Chariot, Side::Black);
    assert_eq!(squares(jiang(&board, at(0, 4), Side::Red)), vec![(0, 3), (0, 5), (1, 4)]);
}

#[test]
fn adjacent_enemy_general_is_listed_once() {
    let mut board = empty();
    put(&mut board, 1, 4, ChessType::General, Side::Red);
    put(&mut board, 2, 4, ChessType::General, Side::Black);
    assert_eq!(
        squares(jiang(&board, at(1, 4), Side::Red)),
        vec![(0, 4), (1, 3), (1, 5), (2, 4)]
    );
}

#[test]
fn empty_square_has_no_piece_to_move() {
    let board = ChessBoard::new();
    assert_eq!(calculate_operators(&board, at(4, 4)), Err(MoveError::EmptySquareSelected));
    assert_eq!(calculate_operators(&empty(), at(0, 0)), Err(MoveError::EmptySquareSelected));
}

#[test]
fn secure_rejects_indices_from_ninety() {
    assert_eq!(secure(0), Ok(at(0, 0)));
    assert_eq!(secure(17), Ok(at(1, 8)));
    assert_eq!(secure(89), Ok(at(9, 8)));
    assert_eq!(secure(90), Err(MoveError::InvalidCoordinate));
    assert_eq!(secure(255), Err(MoveError::InvalidCoordinate));
}

#[test]
fn listed_finds_what_is_there() {
    let list = vec![at(1, 1), at(2, 2)];
    assert!(listed(&list, at(1, 1)));
    assert!(listed(&list, at(2, 2)));
    assert!(!listed(&list, at(1, 2)));
    assert!(!listed(&Vec::new(), at(0, 0)));
}
