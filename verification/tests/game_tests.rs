use tictactoe::board::Completable;
use tictactoe::board::Diagonal;
use tictactoe::board::Row;
use tictactoe::board::Tile;
use tictactoe::game::Game;

#[test]
fn test_row_is_complete() {
    let row = Row {
        tiles: [Tile::X, Tile::X, Tile::X],
    };
    assert!(row.is_complete(Tile::X));
}

#[test]
fn test_diagonal_is_complete() {
    let diag = Diagonal {
        tiles: [Tile::X, Tile::X, Tile::X],
    };
    assert!(diag.is_complete(Tile::X));
}

#[test]
fn test_game_is_complete() {
    let mut game = Game::new();
    game.play(0);
    game.play(1);
    game.play(3);
    game.play(2);
    game.play(6);
    assert!(game.is_complete());
}

#[test]
fn test_game_is_tie() {
    let mut game = Game::new();
    game.play(0);
    game.play(1);
    game.play(2);
    game.play(3);
    game.play(4);
    game.play(5);
    game.play(6);
    game.play(7);
    game.play(8);
    assert!(game.is_tie());
}
