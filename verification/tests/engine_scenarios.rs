use tictactoe::board::Completable;
use tictactoe::board::Row;
use tictactoe::board::Tile;
use tictactoe::game::Game;

#[test]
fn fresh_game_state() {
    let game = Game::new();
    assert_eq!(game.player, Tile::X);
    assert_eq!(game.winner, Tile::Empty);
    assert_eq!(game.turn, 0);
    assert!(!game.over);
    assert!(!game.game_over());
    assert!(!game.is_complete());
    assert!(!game.is_tie());
    for row in 0..3 {
        for col in 0..3 {
            assert_eq!(game.board[row].tiles[col], Tile::Empty);
        }
    }
}

#[test]
fn fresh_row_is_empty() {
    let row = Row::new();
    assert_eq!(row.tiles, [Tile::Empty, Tile::Empty, Tile::Empty]);
    assert!(row.is_complete(Tile::Empty));
    assert!(!row.is_complete(Tile::X));
}

#[test]
fn left_column_win() {
    // X takes 0, 3, 6 (the left column); O answers at 1 and 2.
    let mut game = Game::new();
    game.play(0);
    game.play(1);
    game.play(3);
    game.play(2);
    game.play(6);
    assert_eq!(game.winner, Tile::X);
    assert!(game.over);
    assert!(game.game_over());
    assert!(game.is_complete());
    assert!(game.any_col_complete(Tile::X));
    assert_eq!(game.turn, 5);
}

#[test]
fn center_first_move() {
    let mut game = Game::new();
    game.play(4);
    assert_eq!(game.board[1].tiles[1], Tile::X);
    assert_eq!(game.turn, 1);
    assert_eq!(game.player, Tile::O);
    assert!(!game.over);
}

#[test]
fn occupied_cell_burns_turn() {
    // The second move aims at the occupied cell 0: the first mover's mark
    // stays, the turn still advances, and the active player toggles back.
    let mut game = Game::new();
    game.play(0);
    game.play(0);
    assert_eq!(game.board[0].tiles[0], Tile::X);
    assert_eq!(game.turn, 2);
    assert_eq!(game.player, Tile::X);
    assert!(!game.over);
    assert_eq!(game.winner, Tile::Empty);
}

#[test]
fn anti_diagonal_win() {
    // X fills 2, 4, 6; O plays 0 and 1, touching no X line.
    let mut game = Game::new();
    game.play(2);
    game.play(0);
    game.play(4);
    game.play(1);
    game.play(6);
    assert_eq!(game.winner, Tile::X);
    assert!(game.over);
    assert!(game.any_diagonal_complete(Tile::X));
    assert!(!game.any_row_complete(Tile::X));
    assert!(!game.any_col_complete(Tile::X));
}

#[test]
fn middle_column_win() {
    // X takes 1, 4, 7 (the middle column); O answers at 0 and 2.
    let mut game = Game::new();
    game.play(1);
    game.play(0);
    game.play(4);
    game.play(2);
    game.play(7);
    assert_eq!(game.winner, Tile::X);
    assert!(game.over);
    assert!(game.any_col_complete(Tile::X));
    assert!(!game.any_row_complete(Tile::X));
    assert!(!game.any_diagonal_complete(Tile::X));
}

#[test]
fn middle_row_win_for_second_player() {
    // O fills the middle row 3, 4, 5 while X scatters over 0, 1, 8.
    let mut game = Game::new();
    game.play(0);
    game.play(3);
    game.play(1);
    game.play(4);
    game.play(8);
    game.play(5);
    assert_eq!(game.winner, Tile::O);
    assert!(game.over);
    assert!(game.any_row_complete(Tile::O));
    assert_eq!(game.turn, 6);
}

#[test]
fn tie_after_nine_moves() {
    // X ends with 0, 1, 5, 6, 8 and O with 2, 3, 4, 7: no line is ever
    // completed, so the ninth move ends the game with no winner.
    let mut game = Game::new();
    game.play(0);
    game.play(2);
    game.play(1);
    game.play(3);
    game.play(5);
    game.play(4);
    game.play(6);
    game.play(7);
    game.play(8);
    assert!(game.over);
    assert!(game.is_tie());
    assert_eq!(game.turn, 9);
    assert_eq!(game.winner, Tile::Empty);
    assert!(!game.is_complete());
}

#[test]
fn full_grid_in_order_reports_tie_count() {
    // Playing 0 through 8 in order: X completes the anti-diagonal on the
    // seventh move and the game ends there. The engine does not guard a
    // finished game itself, so the remaining calls still burn turns: the
    // turn count reaches nine and `is_tie` (a pure count check) holds
    // while `winner` still names X.
    let mut game = Game::new();
    game.play(0);
    game.play(1);
    game.play(2);
    game.play(3);
    game.play(4);
    game.play(5);
    game.play(6);
    assert!(game.over);
    assert_eq!(game.winner, Tile::X);
    game.play(7);
    game.play(8);
    assert_eq!(game.turn, 9);
    assert!(game.is_tie());
    assert!(game.over);
    assert_eq!(game.winner, Tile::X);
}

#[test]
fn cols_and_diagonals_gather_the_grid() {
    let mut game = Game::new();
    game.play(0);
    game.play(4);
    game.play(8);
    // Grid now: X at 0 and 8, O at 4.
    let cols = game.cols();
    assert_eq!(cols[0].tiles, [Tile::X, Tile::Empty, Tile::Empty]);
    assert_eq!(cols[1].tiles, [Tile::Empty, Tile::O, Tile::Empty]);
    assert_eq!(cols[2].tiles, [Tile::Empty, Tile::Empty, Tile::X]);
    let diags = game.diagonals();
    assert_eq!(diags[0].tiles, [Tile::X, Tile::O, Tile::X]);
    assert_eq!(diags[1].tiles, [Tile::Empty, Tile::O, Tile::Empty]);
}
