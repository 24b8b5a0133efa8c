//! Whose move is next, and how the turn passes between the players.

use vstd::prelude::*;
use crate::board::Square;

verus! {

/// The player whose move is next. The first player plays X, the second
/// plays O; a game starts with X to move.
#[derive(Clone, Copy, PartialEq, Eq, Structural, Debug)]
pub enum Turn {
    X,
    O,
}

/// The turn of the other player.
pub open spec fn spec_opposite(t: Turn) -> Turn {
    match t {
        Turn::X => Turn::O,
        Turn::O => Turn::X,
    }
}

/// The mark the player to move writes on the board.
pub open spec fn spec_mark(t: Turn) -> Square {
    match t {
        Turn::X => Square::X,
        Turn::O => Square::O,
    }
}

/// The character the player to move is named by.
pub open spec fn spec_turn_char(t: Turn) -> char {
    match t {
        Turn::X => 'X',
        Turn::O => 'O',
    }
}

impl Turn {
    /// The square this player marks the board with.
    pub fn get_square(&self) -> (r: Square)
        ensures
            r == spec_mark(*self),
    {
        match self {
            Turn::X => Square::X,
            Turn::O => Square::O,
        }
    }

    /// The turn of the other player.
    pub fn get_opposite(&self) -> (r: Turn)
        ensures
            r == spec_opposite(*self),
    {
        match self {
            Turn::X => Turn::O,
            Turn::O => Turn::X,
        }
    }

    /// The character this player is named by.
    pub fn get_char(&self) -> (r: char)
        ensures
            r == spec_turn_char(*self),
    {
        match self {
            Turn::X => 'X',
            Turn::O => 'O',
        }
    }
}

/// The player to move after `n` accepted moves of a game that starts with
/// the first player, each accepted move handing the turn to the other
/// player.
pub open spec fn turn_after_moves(n: nat) -> Turn
    decreases n,
{
    if n == 0 {
        Turn::X
    } else {
        spec_opposite(turn_after_moves((n - 1) as nat))
    }
}

/// Turns strictly alternate: after `n` accepted moves the player to move is
/// the first player exactly when `n` is even, and the second player exactly
/// when `n` is odd.
pub proof fn lemma_turn_alternation(n: nat)
    ensures
        turn_after_moves(n) == (if n % 2 == 0 {
            Turn::X
        } else {
            Turn::O
        }),
    decreases n,
{
    if n > 0 {
        lemma_turn_alternation((n - 1) as nat);
    }
}

} // verus!
