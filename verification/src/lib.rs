//! Verified core of a two-player 3x3 grid game played over a text terminal.
//!
//! The library owns the game state and its rules: the grid of squares, the
//! player whose move is next, parsing and legality checking of a raw text
//! move, and the detection of a win or a draw. Terminal interaction (reading
//! lines, clearing the screen, drawing the board) lives outside the library
//! and only hands plain text in and reads plain values out.

pub mod board;
pub mod game;
pub mod moves;
pub mod outcome;
pub mod turn;
