use tictactoe::ErrorKind;
use tictactoe::Mark;
use tictactoe::Square;
use tictactoe::Triple;
use tictactoe::Game;

#[test]
fn test_game_calculate_winner() {
    // | |O|X|
    // |X|X|O|
    // |X| |O|

    let game = Game::default();
    let game = game.make_move(Square::B2).unwrap();
    let game = game.make_move(Square::A2).unwrap();
    let game = game.make_move(Square::B1).unwrap();
    let game = game.make_move(Square::B3).unwrap();
    let game = game.make_move(Square::C1).unwrap();
    let game = game.make_move(Square::C3).unwrap();
    let game = game.make_move(Square::A3).unwrap();

    assert_eq!(
        game.calculate_winner().unwrap(),
        (Mark::Cross, Triple::Diag2)
    );
}

#[test]
fn test_game_make_move_ok() {
    let game = Game::default();
    let game = game.make_move(Square::A2);
    assert!(game.is_ok());
}

#[test]
fn test_game_make_move_err() {
    let game = Game::default();
    let game = game.make_move(Square::B2).unwrap();
    let game = game.make_move(Square::B2);
    assert!(game.is_err());
}

#[test]
fn test_game_err_carries_square() {
    let game = Game::default();
    let game = game.make_move(Square::B2).unwrap();
    let err = game.make_move(Square::B2).unwrap_err();
    assert!(matches!(err, ErrorKind::IndexError(Square::B2)));
}

#[test]
fn test_game_naught_starts() {
    // The same moves as the Diag2 scenario, but Naught plays first.
    let game = Game::new(Mark::Naught);
    let game = game.make_move(Square::B2).unwrap();
    let game = game.make_move(Square::A2).unwrap();
    let game = game.make_move(Square::B1).unwrap();
    let game = game.make_move(Square::B3).unwrap();
    let game = game.make_move(Square::C1).unwrap();
    let game = game.make_move(Square::C3).unwrap();
    let game = game.make_move(Square::A3).unwrap();

    assert_eq!(
        game.calculate_winner().unwrap(),
        (Mark::Naught, Triple::Diag2)
    );
}

#[test]
fn test_game_naught_wins_row() {
    let game = Game::default();
    let game = game.make_move(Square::A1).unwrap();
    let game = game.make_move(Square::C1).unwrap();
    let game = game.make_move(Square::A2).unwrap();
    let game = game.make_move(Square::C2).unwrap();
    let game = game.make_move(Square::B1).unwrap();
    let game = game.make_move(Square::C3).unwrap();

    assert_eq!(
        game.calculate_winner().unwrap(),
        (Mark::Naught, Triple::RowC)
    );
}

#[test]
fn test_game_no_winner_yet() {
    let game = Game::default();
    let game = game.make_move(Square::A1).unwrap();
    let game = game.make_move(Square::A2).unwrap();
    let game = game.make_move(Square::B2).unwrap();
    let game = game.make_move(Square::C3).unwrap();
    assert!(game.calculate_winner().is_none());
}

#[test]
fn test_game_stays_playable_after_win() {
    let game = Game::default();
    let game = game.make_move(Square::B2).unwrap();
    let game = game.make_move(Square::A2).unwrap();
    let game = game.make_move(Square::B1).unwrap();
    let game = game.make_move(Square::B3).unwrap();
    let game = game.make_move(Square::C1).unwrap();
    let game = game.make_move(Square::C3).unwrap();
    let game = game.make_move(Square::A3).unwrap();
    assert!(game.calculate_winner().is_some());

    // A winning position does not end the game: empty squares stay playable.
    let game = game.make_move(Square::A1);
    assert!(game.is_ok());
}

#[test]
fn test_game_failed_move_keeps_turn() {
    // After a rejected move the same player moves again: Cross claims both
    // A1 (first try B2 is taken) and then wins with squares of its own.
    let game = Game::default();
    let game = game.make_move(Square::B2).unwrap();
    let game = game.make_move(Square::A2).unwrap();
    assert!(game.make_move(Square::A2).is_err());
    // Still Cross's turn: Cross takes A3 and C1, Naught answers elsewhere.
    let game = game.make_move(Square::A3).unwrap();
    let game = game.make_move(Square::B3).unwrap();
    let game = game.make_move(Square::C1).unwrap();
    assert_eq!(
        game.calculate_winner().unwrap(),
        (Mark::Cross, Triple::Diag2)
    );
}
