//! A verified engine for a two-player, turn-based game on a fixed 3x3 grid.
//!
//! Each turn a player marks a cell; the game ends when a player fills a
//! row, a column or a diagonal with their mark, or when the grid fills
//! without a winner. The engine owns move application, win/tie detection
//! and turn alternation; rendering and input belong to its callers.

pub mod board;
pub mod game;
pub mod laws;
