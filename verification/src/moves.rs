//! Parsing a raw text move and checking it against the board.

use vstd::prelude::*;
use vstd::string::StrSliceExecFns;
use crate::board::{Board, Square};
use crate::turn::Turn;

verus! {

/// Why a move was rejected: the text is not a well-formed square name, or
/// the named square is already marked.
#[derive(Clone, Copy, PartialEq, Eq, Structural, Debug)]
pub enum InvalidMove {
    BadSyntax,
    Occupied,
}

/// The whitespace characters stripped from the ends of a move before it is
/// interpreted.
pub open spec fn is_space_char(c: char) -> bool {
    c == ' ' || c == '\t' || c == '\n' || c == '\r'
}

/// `s` without its leading whitespace.
pub open spec fn trim_front(s: Seq<char>) -> Seq<char>
    decreases s.len(),
{
    if s.len() > 0 && is_space_char(s[0]) {
        trim_front(s.drop_first())
    } else {
        s
    }
}

/// `s` without its trailing whitespace.
pub open spec fn trim_back(s: Seq<char>) -> Seq<char>
    decreases s.len(),
{
    if s.len() > 0 && is_space_char(s[s.len() - 1]) {
        trim_back(s.drop_last())
    } else {
        s
    }
}

/// `s` without surrounding whitespace: what the validator interprets.
pub open spec fn trimmed_move(s: Seq<char>) -> Seq<char> {
    trim_back(trim_front(s))
}

/// The three letters that name a row.
pub open spec fn valid_row_char(c: char) -> bool {
    c == 'a' || c == 'b' || c == 'c'
}

/// The three digits that name a column.
pub open spec fn valid_col_char(c: char) -> bool {
    c == '1' || c == '2' || c == '3'
}

/// The row a row letter names: `a`, `b`, `c` stand for rows 0, 1, 2.
pub open spec fn spec_row_index(c: char) -> int {
    if c == 'a' {
        0
    } else if c == 'b' {
        1
    } else {
        2
    }
}

/// The column a column digit names: `1`, `2`, `3` stand for columns 0, 1, 2.
pub open spec fn spec_col_index(c: char) -> int {
    if c == '1' {
        0
    } else if c == '2' {
        1
    } else {
        2
    }
}

/// A trimmed move is well formed when it is exactly a row letter followed
/// by a column digit.
pub open spec fn well_formed_move(t: Seq<char>) -> bool {
    t.len() == 2 && valid_row_char(t[0]) && valid_col_char(t[1])
}

/// Dropping `i` leading whitespace characters, up to the first character
/// that is none, is exactly what `trim_front` removes.
proof fn lemma_trim_front_chars(s: Seq<char>, i: int)
    requires
        0 <= i <= s.len(),
        forall|k: int| 0 <= k < i ==> is_space_char(s[k]),
        i < s.len() ==> !is_space_char(s[i]),
    ensures
        trim_front(s) == s.subrange(i, s.len() as int),
    decreases i,
{
    if i == 0 {
        assert(s.subrange(0, s.len() as int) =~= s);
    } else {
        let s1 = s.drop_first();
        assert forall|k: int| 0 <= k < i - 1 implies is_space_char(s1[k]) by {
            assert(s1[k] == s[k + 1]);
        }
        lemma_trim_front_chars(s1, i - 1);
        assert(s1.subrange(i - 1, s1.len() as int) =~= s.subrange(i, s.len() as int));
    }
}

/// Keeping the first `j` characters, back to the last character that is no
/// whitespace, is exactly what `trim_back` keeps.
proof fn lemma_trim_back_chars(s: Seq<char>, j: int)
    requires
        0 <= j <= s.len(),
        forall|k: int| j <= k < s.len() ==> is_space_char(s[k]),
        j > 0 ==> !is_space_char(s[j - 1]),
    ensures
        trim_back(s) == s.subrange(0, j),
    decreases s.len(),
{
    if j == s.len() {
        assert(s.subrange(0, j) =~= s);
    } else {
        let s1 = s.drop_last();
        assert(is_space_char(s[s.len() - 1]));
        lemma_trim_back_chars(s1, j);
        assert(s1.subrange(0, j) =~= s.subrange(0, j));
    }
}

/// True exactly when `c` is surrounding whitespace to be stripped.
fn is_space(c: char) -> (r: bool)
    ensures
        r == is_space_char(c),
{
    c == ' ' || c == '\t' || c == '\n' || c == '\r'
}

/// Parse `raw` into the (row, col) pair it names and check the move against
/// the board: the text is stripped of surrounding whitespace, must then be
/// exactly a row letter `a`..`c` followed by a column digit `1`..`3`, and
/// must address an empty square. Neither the board nor the turn is touched;
/// the turn plays no part in legality and is carried only as the caller's
/// second piece of state.
pub fn parse_and_check(raw: &str, board: &Board, turn: &Turn) -> (r: Result<
    (usize, usize),
    InvalidMove,
>)
    ensures
        ({
            let t = trimmed_move(raw@);
            match r {
                Ok((row, col)) => well_formed_move(t) && row == spec_row_index(t[0]) && col
                    == spec_col_index(t[1]) && board.spec_get(row as int, col as int)
                    == Square::Empty,
                Err(InvalidMove::BadSyntax) => !well_formed_move(t),
                Err(InvalidMove::Occupied) => well_formed_move(t) && board.spec_get(
                    spec_row_index(t[0]),
                    spec_col_index(t[1]),
                ) != Square::Empty,
            }
        }),
{
    let len: usize = raw.unicode_len();

    // Strip leading whitespace.
    let mut start: usize = 0;
    while start < len && is_space(raw.get_char(start))
        invariant
            start <= len,
            len == raw@.len(),
            forall|k: int| 0 <= k < start ==> is_space_char(raw@[k]),
        decreases len - start,
    {
        start = start + 1;
    }

    // Strip trailing whitespace.
    let mut end: usize = len;
    while end > start && is_space(raw.get_char(end - 1))
        invariant
            start <= end <= len,
            len == raw@.len(),
            forall|k: int| 0 <= k < start ==> is_space_char(raw@[k]),
            start == len || !is_space_char(raw@[start as int]),
            forall|k: int| end <= k < len ==> is_space_char(raw@[k]),
        decreases end,
    {
        end = end - 1;
    }

    proof {
        lemma_trim_front_chars(raw@, start as int);
        let s1 = raw@.subrange(start as int, len as int);
        assert forall|k: int| end - start <= k < s1.len() implies is_space_char(s1[k]) by {
            assert(s1[k] == raw@[k + start]);
        }
        lemma_trim_back_chars(s1, end - start);
        assert(s1.subrange(0, end - start) =~= raw@.subrange(start as int, end as int));
    }

    if end - start != 2 {
        return Err(InvalidMove::BadSyntax);
    }
    let c0 = raw.get_char(start);
    let c1 = raw.get_char(start + 1);
    proof {
        let t = trimmed_move(raw@);
        assert(c0 == t[0]);
        assert(c1 == t[1]);
    }
    if !((c0 == 'a' || c0 == 'b' || c0 == 'c') && (c1 == '1' || c1 == '2' || c1 == '3')) {
        return Err(InvalidMove::BadSyntax);
    }

    let row: usize = if c0 == 'a' {
        0
    } else if c0 == 'b' {
        1
    } else {
        2
    };
    let col: usize = if c1 == '1' {
        0
    } else if c1 == '2' {
        1
    } else {
        2
    };

    if board.is_empty(row, col) {
        Ok((row, col))
    } else {
        Err(InvalidMove::Occupied)
    }
}

} // verus!
