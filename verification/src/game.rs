//! One game: the board and the turn, stepped by raw text moves.

use vstd::prelude::*;
use crate::board::{Board, Square, spec_place};
use crate::moves::{
    InvalidMove, parse_and_check, spec_col_index, spec_row_index, trimmed_move, well_formed_move,
};
use crate::outcome::{GameResult, check_result, spec_check_result};
use crate::turn::{Turn, spec_mark, spec_opposite};

verus! {

/// A game in progress: the grid and the player to move. One game owns one
/// board for its whole life; a rejected move leaves both parts untouched,
/// an accepted move marks exactly one square and, while the game continues,
/// hands the turn to the other player.
pub struct GameState {
    pub board: Board,
    pub turn: Turn,
}

impl GameState {
    /// A fresh game: an empty board, the first player to move.
    pub fn new() -> (g: GameState)
        ensures
            g.board.spec_all_empty(),
            g.turn == Turn::X,
    {
        GameState { board: Board::new(), turn: Turn::X }
    }

    /// Play one raw text move. A rejected move reports why and changes
    /// nothing. An accepted move writes the mark of the player to move on
    /// the named square and reports what the evaluator then sees: the
    /// result that ends the game, or nothing, in which case the turn passes
    /// to the other player. Once a result has been reported the game is
    /// over and the caller stops playing moves.
    pub fn play(&mut self, raw: &str) -> (r: Result<Option<GameResult>, InvalidMove>)
        ensures
            ({
                let t = trimmed_move(raw@);
                match r {
                    Err(InvalidMove::BadSyntax) => *final(self) == *old(self)
                        && !well_formed_move(t),
                    Err(InvalidMove::Occupied) => *final(self) == *old(self) && well_formed_move(t)
                        && old(self).board.spec_get(spec_row_index(t[0]), spec_col_index(t[1]))
                        != Square::Empty,
                    Ok(outcome) => well_formed_move(t) && old(self).board.spec_get(
                        spec_row_index(t[0]),
                        spec_col_index(t[1]),
                    ) == Square::Empty && spec_place(
                        old(self).board,
                        final(self).board,
                        spec_row_index(t[0]),
                        spec_col_index(t[1]),
                        spec_mark(old(self).turn),
                    ) && outcome == spec_check_result(final(self).board) && final(self).turn == (
                    if outcome is Some {
                        old(self).turn
                    } else {
                        spec_opposite(old(self).turn)
                    }),
                }
            }),
    {
        match parse_and_check(raw, &self.board, &self.turn) {
            Err(e) => Err(e),
            Ok((row, col)) => {
                let mark = self.turn.get_square();
                self.board.place(row, col, mark);
                let outcome = check_result(&self.board);
                match outcome {
                    None => {
                        self.turn = self.turn.get_opposite();
                    },
                    Some(_) => {},
                }
                Ok(outcome)
            },
        }
    }
}

} // verus!
