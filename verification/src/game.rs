//! The game engine: state, move application, and win/tie detection.

use vstd::prelude::*;

use crate::board::Tile;
use crate::board::Row;
use crate::board::Diagonal;
use crate::board::Completable;
use crate::board::other;
use crate::board::row_complete;
use crate::board::col_complete;
use crate::board::main_diag_complete;
use crate::board::anti_diag_complete;
use crate::board::board_complete;

verus! {

/// The mathematical model of a game: the grid as a row-major sequence of
/// nine tiles, the player to move, the winner so far (`Empty` while none),
/// the number of moves applied, and whether the game has ended.
#[verifier::ext_equal]
pub ghost struct State {
    pub grid: Seq<Tile>,
    pub player: Tile,
    pub winner: Tile,
    pub turn: nat,
    pub over: bool,
}

impl State {
    /// Every state reachable from `init_state` by in-range moves on a live
    /// game satisfies this: nine cells, a real player to move, at most nine
    /// turns taken, the ninth turn ending the game, and — while the game is
    /// live — no winner recorded and no line complete.
    pub open spec fn valid(self) -> bool {
        &&& self.grid.len() == 9
        &&& (self.player == Tile::X || self.player == Tile::O)
        &&& self.turn <= 9
        &&& (self.turn == 9 ==> self.over)
        &&& (!self.over ==> self.winner == Tile::Empty)
        &&& (!self.over ==> !board_complete(self.grid))
    }
}

/// The state a fresh game starts in: an empty grid, `X` to move, no winner,
/// no turns taken, not over.
pub open spec fn init_state() -> State {
    State {
        grid: Seq::new(9, |i: int| Tile::Empty),
        player: Tile::X,
        winner: Tile::Empty,
        turn: 0,
        over: false,
    }
}

/// The grid after attempting to mark cell `index` for the player to move:
/// an empty cell takes the mark, an occupied cell is left untouched.
pub open spec fn marked_grid(s: State, index: int) -> Seq<Tile> {
    if s.grid[index] == Tile::Empty {
        s.grid.update(index, s.player)
    } else {
        s.grid
    }
}

/// One move of the engine, as a pure transition on states. The mark is
/// attempted (an occupied cell still burns the turn), the turn counter
/// advances, and then, in this order: a completed line crowns the player
/// who just moved and ends the game; a ninth turn without one ends the game
/// in a tie; otherwise the other player becomes active.
pub open spec fn spec_play(s: State, index: int) -> State {
    let grid = marked_grid(s, index);
    let turn = s.turn + 1;
    if board_complete(grid) {
        State { grid, turn, winner: s.player, over: true, ..s }
    } else if turn == 9 {
        State { grid, turn, over: true, ..s }
    } else {
        State { grid, turn, player: other(s.player), ..s }
    }
}

/// The engine. Its fields are in plain sight so that a renderer can read
/// the grid, the active player, the winner and the terminal flag.
pub struct Game {
    pub board: [Row; 3],
    pub player: Tile,
    pub winner: Tile,
    pub turn: u8,
    pub over: bool,
}

impl View for Game {
    type V = State;

    open spec fn view(&self) -> State {
        State {
            grid: Seq::new(9, |i: int| self.board[i / 3].tiles[i % 3]),
            player: self.player,
            winner: self.winner,
            turn: self.turn as nat,
            over: self.over,
        }
    }
}

impl Game {
    /// The representation is well formed: its model satisfies `State::valid`.
    pub open spec fn wf(self) -> bool {
        self@.valid()
    }

    /// A fresh game: empty grid, `X` to move, no winner, turn 0, not over.
    pub fn new() -> (g: Game)
        ensures
            g@ == init_state(),
            g.wf(),
    {
        let g = Game {
            board: [Row::new(), Row::new(), Row::new()],
            player: Tile::X,
            winner: Tile::Empty,
            turn: 0,
            over: false,
        };
        proof {
            assert(g@.grid =~= init_state().grid);
            assert(g@ =~= init_state());
            crate::laws::lemma_init_state();
        }
        g
    }

    /// Applies the move at flat index `index` for the active player, as
    /// `spec_play` describes. A correct caller never plays on a finished
    /// game: `over` must still be false.
    pub fn play(&mut self, index: usize)
        requires
            index < 9,
            old(self).wf(),
            !old(self).over,
        ensures
            final(self)@ == spec_play(old(self)@, index as int),
            final(self).wf(),
    {
        let row = index / 3;
        let col = index % 3;

        if self.board[row].tiles[col] == Tile::Empty {
            self.board[row].tiles[col] = self.player;
        }
        proof {
            assert(self@.grid =~= marked_grid(old(self)@, index as int));
        }
        self.turn = self.turn + 1;

        if self.is_complete() {
            self.winner = self.player;
            self.over = true;
        } else if self.is_tie() {
            self.over = true;
        } else {
            self.player = match self.player {
                Tile::X => Tile::O,
                Tile::O => Tile::X,
                Tile::Empty => vstd::pervasive::unreached(),
            };
        }
        proof {
            assert(self@ =~= spec_play(old(self)@, index as int));
        }
    }

    /// Whether some row, column or diagonal is filled entirely with one
    /// player's mark, checked for both players.
    pub fn is_complete(&self) -> (r: bool)
        ensures
            r == board_complete(self@.grid),
    {
        self.any_row_complete(Tile::X)
            || self.any_row_complete(Tile::O)
            || self.any_diagonal_complete(Tile::X)
            || self.any_diagonal_complete(Tile::O)
            || self.any_col_complete(Tile::X)
            || self.any_col_complete(Tile::O)
    }

    /// Whether some row is filled entirely with `tile`.
    pub fn any_row_complete(&self, tile: Tile) -> (r: bool)
        ensures
            r == exists|row: int| 0 <= row < 3 && row_complete(self@.grid, row, tile),
    {
        let r = self.board[0].is_complete(tile)
            || self.board[1].is_complete(tile)
            || self.board[2].is_complete(tile);
        proof {
            assert(row_complete(self@.grid, 0, tile) == self.board[0].complete_spec(tile));
            assert(row_complete(self@.grid, 1, tile) == self.board[1].complete_spec(tile));
            assert(row_complete(self@.grid, 2, tile) == self.board[2].complete_spec(tile));
        }
        r
    }

    /// Whether some column is filled entirely with `tile`.
    pub fn any_col_complete(&self, tile: Tile) -> (r: bool)
        ensures
            r == exists|c: int| 0 <= c < 3 && col_complete(self@.grid, c, tile),
    {
        let cols = self.cols();
        let r = cols[0].is_complete(tile) || cols[1].is_complete(tile) || cols[2].is_complete(
            tile,
        );
        proof {
            assert(col_complete(self@.grid, 0, tile) == cols[0].complete_spec(tile));
            assert(col_complete(self@.grid, 1, tile) == cols[1].complete_spec(tile));
            assert(col_complete(self@.grid, 2, tile) == cols[2].complete_spec(tile));
        }
        r
    }

    /// Whether one of the two diagonals is filled entirely with `tile`.
    pub fn any_diagonal_complete(&self, tile: Tile) -> (r: bool)
        ensures
            r == (main_diag_complete(self@.grid, tile) || anti_diag_complete(self@.grid, tile)),
    {
        let diags = self.diagonals();
        diags[0].is_complete(tile) || diags[1].is_complete(tile)
    }

    /// The two diagonals, gathered from the grid: first top-left to
    /// bottom-right, then top-right to bottom-left.
    pub fn diagonals(&self) -> (diags: [Diagonal; 2])
        ensures
            diags[0].tiles[0] == self@.grid[0],
            diags[0].tiles[1] == self@.grid[4],
            diags[0].tiles[2] == self@.grid[8],
            diags[1].tiles[0] == self@.grid[2],
            diags[1].tiles[1] == self@.grid[4],
            diags[1].tiles[2] == self@.grid[6],
    {
        [
            Diagonal {
                tiles: [
                    self.board[0].tiles[0],
                    self.board[1].tiles[1],
                    self.board[2].tiles[2],
                ],
            },
            Diagonal {
                tiles: [
                    self.board[0].tiles[2],
                    self.board[1].tiles[1],
                    self.board[2].tiles[0],
                ],
            },
        ]
    }

    /// The three columns, each gathered top to bottom into a `Row`.
    pub fn cols(&self) -> (cols: [Row; 3])
        ensures
            forall|c: int, r: int|
                0 <= c < 3 && 0 <= r < 3 ==> cols[c].tiles[r] == self@.grid[3 * r + c],
    {
        [
            Row {
                tiles: [
                    self.board[0].tiles[0],
                    self.board[1].tiles[0],
                    self.board[2].tiles[0],
                ],
            },
            Row {
                tiles: [
                    self.board[0].tiles[1],
                    self.board[1].tiles[1],
                    self.board[2].tiles[1],
                ],
            },
            Row {
                tiles: [
                    self.board[0].tiles[2],
                    self.board[1].tiles[2],
                    self.board[2].tiles[2],
                ],
            },
        ]
    }

    /// Whether all nine turns have been taken. This checks the turn count
    /// alone: a game won on the ninth move also reports true here, and the
    /// `winner` field disambiguates.
    pub fn is_tie(&self) -> (r: bool)
        ensures
            r == (self@.turn == 9),
    {
        self.turn == 9
    }

    /// Whether the game has ended, by a win or by a full grid.
    pub fn game_over(&self) -> (r: bool)
        ensures
            r == self@.over,
    {
        self.over
    }
}

} // verus!
