//! The squares of the grid and the grid itself.

use vstd::prelude::*;
use crate::outcome::GameResult;

verus! {

/// One square of the grid: marked by one of the two players, or still empty.
///
/// An immutable value; every grid position holds exactly one `Square` at all
/// times.
#[derive(Clone, Copy, PartialEq, Eq, Structural, Debug)]
pub enum Square {
    X,
    O,
    Empty,
}

/// The game result that a line filled with `s` stands for: a win for the
/// player whose mark `s` is, or nothing for an empty square.
pub open spec fn spec_game_result_of(s: Square) -> Option<GameResult> {
    match s {
        Square::X => Some(GameResult::X),
        Square::O => Some(GameResult::O),
        Square::Empty => None,
    }
}

/// The character a square is drawn with.
pub open spec fn spec_square_char(s: Square) -> char {
    match s {
        Square::X => 'X',
        Square::O => 'O',
        Square::Empty => '.',
    }
}

impl Square {
    /// True exactly when the square has not been marked.
    pub fn is_empty(&self) -> (r: bool)
        ensures
            r == (*self == Square::Empty),
    {
        match self {
            Square::Empty => true,
            _ => false,
        }
    }

    /// The game result a line filled with this square stands for.
    pub fn get_game_result(&self) -> (r: Option<GameResult>)
        ensures
            r == spec_game_result_of(*self),
    {
        match self {
            Square::X => Some(GameResult::X),
            Square::O => Some(GameResult::O),
            Square::Empty => None,
        }
    }

    /// The character the square is drawn with.
    pub fn get_char(&self) -> (r: char)
        ensures
            r == spec_square_char(*self),
    {
        match self {
            Square::X => 'X',
            Square::O => 'O',
            Square::Empty => '.',
        }
    }
}

/// The 3-by-3 grid of squares, addressed by (row, column) with both indices
/// in 0..3. Stored row-major.
#[derive(Clone, Copy)]
pub struct Board {
    cells: [Square; 9],
}

impl Board {
    /// The square at (row, col), as specifications see it.
    pub closed spec fn spec_get(self, row: int, col: int) -> Square {
        self.cells[3 * row + col]
    }

    /// Every square of the board is empty.
    pub open spec fn spec_all_empty(self) -> bool {
        forall|r: int, c: int|
            0 <= r < 3 && 0 <= c < 3 ==> self.spec_get(r, c) == Square::Empty
    }

    /// A fresh board, fully empty.
    pub fn new() -> (b: Board)
        ensures
            b.spec_all_empty(),
    {
        Board {
            cells: [
                Square::Empty,
                Square::Empty,
                Square::Empty,
                Square::Empty,
                Square::Empty,
                Square::Empty,
                Square::Empty,
                Square::Empty,
                Square::Empty,
            ],
        }
    }

    /// Read the square at (row, col); the caller guarantees the indices are
    /// in range, and they are not re-validated here.
    pub fn get(&self, row: usize, col: usize) -> (r: Square)
        requires
            row < 3,
            col < 3,
        ensures
            r == self.spec_get(row as int, col as int),
    {
        self.cells[3 * row + col]
    }

    /// True exactly when the square at (row, col) is empty.
    pub fn is_empty(&self, row: usize, col: usize) -> (r: bool)
        requires
            row < 3,
            col < 3,
        ensures
            r == (self.spec_get(row as int, col as int) == Square::Empty),
    {
        self.get(row, col).is_empty()
    }

    /// Overwrite the square at (row, col). The caller has already confirmed
    /// that the position is empty; legality of the move is checked elsewhere.
    pub fn place(&mut self, row: usize, col: usize, cell: Square)
        requires
            row < 3,
            col < 3,
            old(self).spec_get(row as int, col as int) == Square::Empty,
        ensures
            spec_place(*old(self), *final(self), row as int, col as int, cell),
    {
        self.cells[3 * row + col] = cell;
    }
}

/// `after` is `before` with the square at (row, col) overwritten by `cell`
/// and every other square unchanged.
pub open spec fn spec_place(before: Board, after: Board, row: int, col: int, cell: Square) -> bool {
    forall|r: int, c: int|
        0 <= r < 3 && 0 <= c < 3 ==> after.spec_get(r, c) == (if r == row && c == col {
            cell
        } else {
            before.spec_get(r, c)
        })
}

} // verus!
