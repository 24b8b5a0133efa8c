use tic_tac_toe::board::{Board, Square};
use tic_tac_toe::outcome::{check_result, GameResult};

/// Build a board from nine squares given row by row.
fn board_of(cells: [Square; 9]) -> Board {
    let mut b = Board::new();
    for r in 0..3 {
        for c in 0..3 {
            if cells[3 * r + c] != Square::Empty {
                b.place(r, c, cells[3 * r + c]);
            }
        }
    }
    b
}

const X: Square = Square::X;
const O: Square = Square::O;
const E: Square = Square::Empty;

#[test]
fn empty_board_is_ongoing() {
    let b = Board::new();
    assert_eq!(check_result(&b), None);
}

#[test]
fn single_mark_is_ongoing() {
    let b = board_of([X, E, E, E, E, E, E, E, E]);
    assert_eq!(check_result(&b), None);
}

#[test]
fn each_row_win_is_detected() {
    for r in 0..3 {
        let mut b = Board::new();
        for c in 0..3 {
            b.place(r, c, X);
        }
        assert_eq!(check_result(&b), Some(GameResult::X));
    }
}

#[test]
fn each_column_win_is_detected() {
    for c in 0..3 {
        let mut b = Board::new();
        for r in 0..3 {
            b.place(r, c, O);
        }
        assert_eq!(check_result(&b), Some(GameResult::O));
    }
}

#[test]
fn main_diagonal_win_is_detected() {
    let b = board_of([X, E, E, E, X, E, E, E, X]);
    assert_eq!(check_result(&b), Some(GameResult::X));
}

#[test]
fn anti_diagonal_win_is_detected() {
    let b = board_of([E, E, O, E, O, E, O, E, E]);
    assert_eq!(check_result(&b), Some(GameResult::O));
}

#[test]
fn column_win_is_reported_for_the_columns_own_mark() {
    // Column 1 belongs to O while the squares of column 0 stay open: the
    // reported winner is read off the matched column itself.
    let b = board_of([E, O, X, E, O, X, X, O, E]);
    assert_eq!(check_result(&b), Some(GameResult::O));
}

#[test]
fn row_win_ignores_unrelated_marks() {
    let b = board_of([X, X, X, O, O, E, E, E, O]);
    assert_eq!(check_result(&b), Some(GameResult::X));
}

#[test]
fn win_on_a_full_board_is_not_a_draw() {
    let b = board_of([X, X, X, O, O, X, X, O, O]);
    assert_eq!(check_result(&b), Some(GameResult::X));
}

#[test]
fn classic_draw_pattern_is_a_draw() {
    let b = board_of([X, O, X, X, O, O, O, X, X]);
    assert_eq!(check_result(&b), Some(GameResult::Draw));
}

#[test]
fn one_open_square_without_a_line_is_ongoing() {
    let b = board_of([X, O, X, X, O, O, O, X, E]);
    assert_eq!(check_result(&b), None);
}

#[test]
fn evaluation_is_idempotent() {
    let boards = [
        Board::new(),
        board_of([X, X, X, O, O, E, E, E, E]),
        board_of([X, O, X, X, O, O, O, X, X]),
        board_of([X, O, E, E, E, E, E, E, E]),
    ];
    for b in boards.iter() {
        assert_eq!(check_result(b), check_result(b));
    }
}

#[test]
fn square_game_results() {
    assert_eq!(Square::X.get_game_result(), Some(GameResult::X));
    assert_eq!(Square::O.get_game_result(), Some(GameResult::O));
    assert_eq!(Square::Empty.get_game_result(), None);
}

#[test]
fn square_emptiness() {
    assert!(Square::Empty.is_empty());
    assert!(!Square::X.is_empty());
    assert!(!Square::O.is_empty());
}

#[test]
fn square_characters() {
    assert_eq!(Square::X.get_char(), 'X');
    assert_eq!(Square::O.get_char(), 'O');
    assert_eq!(Square::Empty.get_char(), '.');
}

#[test]
fn board_reads_back_what_was_placed() {
    let mut b = Board::new();
    assert!(b.is_empty(2, 1));
    b.place(2, 1, O);
    assert_eq!(b.get(2, 1), O);
    assert!(!b.is_empty(2, 1));
    assert!(b.is_empty(1, 2));
}
