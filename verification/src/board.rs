//! Tiles, rows and diagonals of the 3x3 grid, and the line-completion
//! predicates that win detection is stated with.
//!
//! In specifications the grid is a `Seq<Tile>` of length 9, read in row-major
//! order: flat index `i` names the cell at row `i / 3`, column `i % 3`.

use vstd::prelude::*;

verus! {

/// The content of one cell: one player's mark, the other's, or nothing.
#[derive(PartialEq, Eq, Structural, Clone, Copy, Debug)]
pub enum Tile {
    X,
    O,
    Empty,
}

/// The mark that moves after `t` does. Only meaningful for `X` and `O`.
pub open spec fn other(t: Tile) -> Tile {
    if t == Tile::X {
        Tile::O
    } else {
        Tile::X
    }
}

/// Three cells gathered in a row (also used for a gathered column).
#[derive(PartialEq, Clone, Copy, Debug)]
pub struct Row {
    pub tiles: [Tile; 3],
}

impl Row {
    /// A fresh, fully empty row.
    pub fn new() -> (r: Row)
        ensures
            forall|i: int| 0 <= i < 3 ==> r.tiles[i] == Tile::Empty,
    {
        Row { tiles: [Tile::Empty, Tile::Empty, Tile::Empty] }
    }
}

/// Three cells gathered along one of the two diagonals.
#[derive(Clone, Copy, Debug)]
pub struct Diagonal {
    pub tiles: [Tile; 3],
}

/// Anything made of three cells that can be checked for a uniform mark.
pub trait Completable {
    /// What it means for this value to be filled entirely with `tile`.
    spec fn complete_spec(&self, tile: Tile) -> bool;

    /// Whether every one of the three cells holds `tile`.
    fn is_complete(&self, tile: Tile) -> (r: bool)
        ensures
            r == self.complete_spec(tile),
    ;
}

impl Completable for [Tile; 3] {
    open spec fn complete_spec(&self, tile: Tile) -> bool {
        self[0] == tile && self[1] == tile && self[2] == tile
    }

    fn is_complete(&self, tile: Tile) -> (r: bool) {
        self[0] == tile && self[1] == tile && self[2] == tile
    }
}

impl Completable for Row {
    open spec fn complete_spec(&self, tile: Tile) -> bool {
        self.tiles.complete_spec(tile)
    }

    fn is_complete(&self, tile: Tile) -> (r: bool) {
        self.tiles.is_complete(tile)
    }
}

impl Completable for Diagonal {
    open spec fn complete_spec(&self, tile: Tile) -> bool {
        self.tiles.complete_spec(tile)
    }

    fn is_complete(&self, tile: Tile) -> (r: bool) {
        self.tiles.is_complete(tile)
    }
}

/// Row `r` of the grid (cells `3r`, `3r + 1`, `3r + 2`) holds `t` throughout.
pub open spec fn row_complete(g: Seq<Tile>, r: int, t: Tile) -> bool {
    g[3 * r] == t && g[3 * r + 1] == t && g[3 * r + 2] == t
}

/// Column `c` of the grid (cells `c`, `c + 3`, `c + 6`) holds `t` throughout.
pub open spec fn col_complete(g: Seq<Tile>, c: int, t: Tile) -> bool {
    g[c] == t && g[c + 3] == t && g[c + 6] == t
}

/// The top-left to bottom-right diagonal holds `t` throughout.
pub open spec fn main_diag_complete(g: Seq<Tile>, t: Tile) -> bool {
    g[0] == t && g[4] == t && g[8] == t
}

/// The top-right to bottom-left diagonal holds `t` throughout.
pub open spec fn anti_diag_complete(g: Seq<Tile>, t: Tile) -> bool {
    g[2] == t && g[4] == t && g[6] == t
}

/// Some row, column or diagonal is filled entirely with `t`.
pub open spec fn wins(g: Seq<Tile>, t: Tile) -> bool {
    ||| exists|r: int| 0 <= r < 3 && row_complete(g, r, t)
    ||| exists|c: int| 0 <= c < 3 && col_complete(g, c, t)
    ||| main_diag_complete(g, t)
    ||| anti_diag_complete(g, t)
}

/// Some line is filled entirely with one mark, whichever player's.
pub open spec fn board_complete(g: Seq<Tile>) -> bool {
    wins(g, Tile::X) || wins(g, Tile::O)
}

/// The eight lines under one index: lines 0 to 2 are the rows, 3 to 5 the
/// columns, 6 the main diagonal and 7 the anti-diagonal.
pub open spec fn line_complete(g: Seq<Tile>, line: int, t: Tile) -> bool {
    if 0 <= line < 3 {
        row_complete(g, line, t)
    } else if 3 <= line < 6 {
        col_complete(g, line - 3, t)
    } else if line == 6 {
        main_diag_complete(g, t)
    } else {
        anti_diag_complete(g, t)
    }
}

} // verus!
