use tictactoe::Board;
use tictactoe::ErrorKind;
use tictactoe::Mark;
use tictactoe::Square;
use tictactoe::Triple;

fn claim(board: Board, mark: Mark, squares: &[Square]) -> Board {
    let mut b = board;
    for s in squares {
        b = b.make_move(&mark, *s).unwrap();
    }
    b
}

#[test]
fn test_board_new_has_no_winner() {
    assert!(Board::new().calculate_winner().is_none());
}

#[test]
fn test_board_winner_row_a() {
    let b = claim(Board::new(), Mark::Cross, &[Square::A1, Square::A2, Square::A3]);
    let b = claim(b, Mark::Naught, &[Square::B1, Square::B2]);
    assert_eq!(b.calculate_winner().unwrap(), (Mark::Cross, Triple::RowA));
}

#[test]
fn test_board_winner_row_b() {
    let b = claim(Board::new(), Mark::Naught, &[Square::B1, Square::B2, Square::B3]);
    assert_eq!(b.calculate_winner().unwrap(), (Mark::Naught, Triple::RowB));
}

#[test]
fn test_board_winner_row_c() {
    let b = claim(Board::new(), Mark::Cross, &[Square::C1, Square::C2, Square::C3]);
    assert_eq!(b.calculate_winner().unwrap(), (Mark::Cross, Triple::RowC));
}

#[test]
fn test_board_winner_col_1() {
    let b = claim(Board::new(), Mark::Cross, &[Square::A1, Square::B1, Square::C1]);
    assert_eq!(b.calculate_winner().unwrap(), (Mark::Cross, Triple::Col1));
}

#[test]
fn test_board_winner_col_2() {
    let b = claim(Board::new(), Mark::Naught, &[Square::A2, Square::B2, Square::C2]);
    assert_eq!(b.calculate_winner().unwrap(), (Mark::Naught, Triple::Col2));
}

#[test]
fn test_board_winner_col_3() {
    let b = claim(Board::new(), Mark::Cross, &[Square::A3, Square::B3, Square::C3]);
    assert_eq!(b.calculate_winner().unwrap(), (Mark::Cross, Triple::Col3));
}

#[test]
fn test_board_winner_diag_1() {
    let b = claim(Board::new(), Mark::Cross, &[Square::A1, Square::B2, Square::C3]);
    assert_eq!(b.calculate_winner().unwrap(), (Mark::Cross, Triple::Diag1));
}

#[test]
fn test_board_winner_diag_2() {
    let b = claim(Board::new(), Mark::Naught, &[Square::A3, Square::B2, Square::C1]);
    assert_eq!(b.calculate_winner().unwrap(), (Mark::Naught, Triple::Diag2));
}

#[test]
fn test_board_two_in_a_row_is_no_win() {
    let b = claim(Board::new(), Mark::Cross, &[Square::A1, Square::A2]);
    let b = claim(b, Mark::Naught, &[Square::B1, Square::B2]);
    assert!(b.calculate_winner().is_none());
}

#[test]
fn test_board_occupied_square_rejected() {
    let b = claim(Board::new(), Mark::Cross, &[Square::B2]);
    let err = b.make_move(&Mark::Naught, Square::B2).unwrap_err();
    assert!(matches!(err, ErrorKind::IndexError(Square::B2)));
    let err = b.make_move(&Mark::Cross, Square::B2).unwrap_err();
    assert!(matches!(err, ErrorKind::IndexError(Square::B2)));
}

#[test]
fn test_board_cross_checked_first() {
    // If both marks somehow complete a line, Cross wins by scan order.
    let b = claim(Board::new(), Mark::Naught, &[Square::C1, Square::C2, Square::C3]);
    let b = claim(b, Mark::Cross, &[Square::A1, Square::A2, Square::A3]);
    assert_eq!(b.calculate_winner().unwrap(), (Mark::Cross, Triple::RowA));
}

#[test]
fn test_board_highest_order_line_reported() {
    // One mark completing two lines at once: the line with the smaller
    // index (the higher-order bit group) is the one reported.
    let b = claim(
        Board::new(),
        Mark::Cross,
        &[Square::A1, Square::A2, Square::A3, Square::B1, Square::C1],
    );
    assert_eq!(b.calculate_winner().unwrap(), (Mark::Cross, Triple::RowA));
}
