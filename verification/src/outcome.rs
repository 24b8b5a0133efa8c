//! The result of a finished game, and the evaluator that reads it off a board.

use vstd::prelude::*;
use crate::board::{Board, Square, spec_game_result_of};

verus! {

/// The result of a finished game: a win for one of the players, or a draw.
///
/// A value of this type is never stored; it is computed fresh from the board
/// after every accepted move and discarded while the game continues.
#[derive(Clone, Copy, PartialEq, Eq, Structural, Debug)]
pub enum GameResult {
    X,
    O,
    Draw,
}

/// Row `i` is fully marked with the square `s`.
pub open spec fn row_filled_with(b: Board, i: int, s: Square) -> bool {
    b.spec_get(i, 0) == s && b.spec_get(i, 1) == s && b.spec_get(i, 2) == s
}

/// Column `i` is fully marked with the square `s`.
pub open spec fn col_filled_with(b: Board, i: int, s: Square) -> bool {
    b.spec_get(0, i) == s && b.spec_get(1, i) == s && b.spec_get(2, i) == s
}

/// One of the two diagonals is fully marked with the square `s`.
pub open spec fn diag_filled_with(b: Board, s: Square) -> bool {
    (b.spec_get(0, 0) == s && b.spec_get(1, 1) == s && b.spec_get(2, 2) == s)
        || (b.spec_get(0, 2) == s && b.spec_get(1, 1) == s && b.spec_get(2, 0) == s)
}

/// The player whose mark is `s` has a winning line: some row, column or
/// diagonal is fully marked with `s`, and `s` is a real mark.
pub open spec fn wins(b: Board, s: Square) -> bool {
    s != Square::Empty && (row_filled_with(b, 0, s) || row_filled_with(b, 1, s)
        || row_filled_with(b, 2, s) || col_filled_with(b, 0, s) || col_filled_with(b, 1, s)
        || col_filled_with(b, 2, s) || diag_filled_with(b, s))
}

/// Every square of the board is marked.
pub open spec fn board_full(b: Board) -> bool {
    forall|r: int, c: int| 0 <= r < 3 && 0 <= c < 3 ==> b.spec_get(r, c) != Square::Empty
}

/// Row `i` holds three equal non-empty squares.
pub open spec fn row_won(b: Board, i: int) -> bool {
    b.spec_get(i, 0) != Square::Empty && b.spec_get(i, 0) == b.spec_get(i, 1)
        && b.spec_get(i, 1) == b.spec_get(i, 2)
}

/// Column `i` holds three equal non-empty squares.
pub open spec fn col_won(b: Board, i: int) -> bool {
    b.spec_get(0, i) != Square::Empty && b.spec_get(0, i) == b.spec_get(1, i)
        && b.spec_get(1, i) == b.spec_get(2, i)
}

/// The centre square is marked and one of the two diagonals holds three
/// equal squares.
pub open spec fn diag_won(b: Board) -> bool {
    b.spec_get(1, 1) != Square::Empty && ((b.spec_get(0, 0) == b.spec_get(1, 1)
        && b.spec_get(1, 1) == b.spec_get(2, 2)) || (b.spec_get(0, 2) == b.spec_get(1, 1)
        && b.spec_get(1, 1) == b.spec_get(2, 0)))
}

/// What the evaluator reports for a board, line by line in the order the
/// lines are inspected: each row interleaved with the column of the same
/// index, then the diagonals, then a draw once the board is full, and
/// nothing while a square is still open. The winning mark is read off the
/// matched line itself.
pub open spec fn spec_check_result(b: Board) -> Option<GameResult> {
    if row_won(b, 0) {
        spec_game_result_of(b.spec_get(0, 0))
    } else if col_won(b, 0) {
        spec_game_result_of(b.spec_get(0, 0))
    } else if row_won(b, 1) {
        spec_game_result_of(b.spec_get(1, 0))
    } else if col_won(b, 1) {
        spec_game_result_of(b.spec_get(0, 1))
    } else if row_won(b, 2) {
        spec_game_result_of(b.spec_get(2, 0))
    } else if col_won(b, 2) {
        spec_game_result_of(b.spec_get(0, 2))
    } else if diag_won(b) {
        spec_game_result_of(b.spec_get(1, 1))
    } else if board_full(b) {
        Some(GameResult::Draw)
    } else {
        None
    }
}

/// The mark of the other player: X for O and O for X. An empty square has
/// no rival and is left alone.
pub open spec fn rival(s: Square) -> Square {
    match s {
        Square::X => Square::O,
        Square::O => Square::X,
        Square::Empty => Square::Empty,
    }
}

/// The evaluator reports nothing exactly while the game is still open: some
/// square is empty and neither player has a winning line.
pub proof fn lemma_none_iff_ongoing(b: Board)
    ensures
        spec_check_result(b) is None <==> (!board_full(b) && !wins(b, Square::X) && !wins(
            b,
            Square::O,
        )),
{
    if wins(b, Square::X) || wins(b, Square::O) {
        assert(spec_check_result(b) is Some);
    }
}

/// A winning line is reported as a win for its own mark: on a board where
/// `s` has a winning line and the other mark has none, the evaluator
/// reports the win for `s`, whatever the remaining squares hold.
pub proof fn lemma_win_detected(b: Board, s: Square)
    requires
        wins(b, s),
        !wins(b, rival(s)),
    ensures
        spec_check_result(b) == spec_game_result_of(s),
{
}

/// A full board without a winning line is a draw.
pub proof fn lemma_full_draw(b: Board)
    requires
        board_full(b),
        !wins(b, Square::X),
        !wins(b, Square::O),
    ensures
        spec_check_result(b) == Some(GameResult::Draw),
{
}

/// Evaluation is a pure function of the board: two reads of the same
/// unmodified board report the same result.
pub proof fn lemma_check_result_deterministic(b1: Board, b2: Board)
    requires
        b1 == b2,
    ensures
        spec_check_result(b1) == spec_check_result(b2),
{
}

/// Inspect the board and report a win or a draw, or nothing while the game
/// continues. A pure read of the board, callable any number of times.
pub fn check_result(board: &Board) -> (r: Option<GameResult>)
    ensures
        r == spec_check_result(*board),
{
    // Rows and columns, row and column of the same index in turn.
    let mut i: usize = 0;
    while i < 3
        invariant
            i <= 3,
            forall|j: int| 0 <= j < i ==> !row_won(*board, j) && !col_won(*board, j),
        decreases 3 - i,
    {
        let r0 = board.get(i, 0);
        let r1 = board.get(i, 1);
        let r2 = board.get(i, 2);
        if !r0.is_empty() && r0 == r1 && r1 == r2 {
            return r0.get_game_result();
        }
        let c0 = board.get(0, i);
        let c1 = board.get(1, i);
        let c2 = board.get(2, i);
        if !c0.is_empty() && c0 == c1 && c1 == c2 {
            return c0.get_game_result();
        }
        i = i + 1;
    }

    // Diagonals; both run through the centre, so the centre holds the
    // winning mark.
    let centre = board.get(1, 1);
    if !centre.is_empty() {
        let tl = board.get(0, 0);
        let br = board.get(2, 2);
        let tr = board.get(0, 2);
        let bl = board.get(2, 0);
        if (tl == centre && centre == br) || (tr == centre && centre == bl) {
            return centre.get_game_result();
        }
    }

    // Any open square means the game continues.
    let mut r: usize = 0;
    while r < 3
        invariant
            r <= 3,
            forall|j: int| 0 <= j < 3 ==> !row_won(*board, j) && !col_won(*board, j),
            !diag_won(*board),
            forall|rr: int, cc: int| 0 <= rr < r && 0 <= cc < 3 ==> board.spec_get(rr, cc)
                != Square::Empty,
        decreases 3 - r,
    {
        let mut c: usize = 0;
        while c < 3
            invariant
                r < 3,
                c <= 3,
                forall|j: int| 0 <= j < 3 ==> !row_won(*board, j) && !col_won(*board, j),
                !diag_won(*board),
                forall|rr: int, cc: int| 0 <= rr < r && 0 <= cc < 3 ==> board.spec_get(rr, cc)
                    != Square::Empty,
                forall|cc: int| 0 <= cc < c ==> board.spec_get(r as int, cc) != Square::Empty,
            decreases 3 - c,
        {
            if board.is_empty(r, c) {
                return None;
            }
            c = c + 1;
        }
        r = r + 1;
    }

    // Every square is marked and no line matched.
    Some(GameResult::Draw)
}

} // verus!
