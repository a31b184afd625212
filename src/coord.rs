//! Reading a cell position from a two-character token such as `B3`.
use vstd::prelude::*;
use vstd::string::*;

verus! {

/// Why a token was refused.
#[derive(PartialEq, Eq, Structural, Debug, Clone, Copy)]
pub enum ParseError {
    /// Not a letter A-H followed by a digit 1-8.
    InvalidCoordinate,
}

impl ParseError {
    /// A short description for the player.
    pub fn message(&self) -> (s: &'static str)
        ensures
            s@ == "Invalid Input"@,
    {
        "Invalid Input"
    }
}

/// The row that a rank letter names: `A` is 0, `H` is 7.
pub open spec fn row_of(l: char) -> Option<i8> {
    if 'A' as u32 <= l as u32 <= 'H' as u32 {
        Some((l as u32 - 'A' as u32) as i8)
    } else {
        None
    }
}

/// The column that a file digit names: `1` is 0, `8` is 7.
pub open spec fn col_of(d: char) -> Option<i8> {
    if '1' as u32 <= d as u32 <= '8' as u32 {
        Some((d as u32 - '1' as u32) as i8)
    } else {
        None
    }
}

/// What parsing the characters `t` gives.
pub open spec fn parse_spec(t: Seq<char>) -> Result<(i8, i8), ParseError> {
    if t.len() == 2 && row_of(t[0]) is Some && col_of(t[1]) is Some {
        Ok((row_of(t[0])->Some_0, col_of(t[1])->Some_0))
    } else {
        Err(ParseError::InvalidCoordinate)
    }
}

/// Parses a token made of a rank letter `A`-`H` (the row) and a file digit
/// `1`-`8` (the column) into a zero-based (row, column) pair.
pub fn parse_board_pos(s: &str) -> (r: Result<(i8, i8), ParseError>)
    ensures
        r == parse_spec(s@),
        r matches Ok(p) ==> 0 <= p.0 < 8 && 0 <= p.1 < 8,
{
    let n = s.unicode_len();
    if n != 2 {
        return Err(ParseError::InvalidCoordinate);
    }
    let l = s.get_char(0) as u32;
    let d = s.get_char(1) as u32;
    if l < 'A' as u32 || l > 'H' as u32 {
        return Err(ParseError::InvalidCoordinate);
    }
    if d < '1' as u32 || d > '8' as u32 {
        return Err(ParseError::InvalidCoordinate);
    }
    Ok(((l - 'A' as u32) as i8, (d - '1' as u32) as i8))
}

/// What parsing the characters `t` as a move gives: the first two
/// characters name the source cell, the rest the destination.
pub open spec fn parse_move_spec(t: Seq<char>) -> Result<((i8, i8), (i8, i8)), ParseError> {
    if t.len() < 2 {
        Err(ParseError::InvalidCoordinate)
    } else {
        match (parse_spec(t.subrange(0, 2)), parse_spec(t.subrange(2, t.len() as int))) {
            (Ok(a), Ok(b)) => Ok((a, b)),
            _ => Err(ParseError::InvalidCoordinate),
        }
    }
}

/// Parses a move written as two tokens side by side, such as `A1B2`.
pub fn parse_move(s: &str) -> (r: Result<((i8, i8), (i8, i8)), ParseError>)
    ensures
        r == parse_move_spec(s@),
        r matches Ok(m) ==> 0 <= m.0.0 < 8 && 0 <= m.0.1 < 8 && 0 <= m.1.0 < 8 && 0 <= m.1.1 < 8,
{
    let n = s.unicode_len();
    if n < 2 {
        return Err(ParseError::InvalidCoordinate);
    }
    let from = parse_board_pos(s.substring_char(0, 2));
    let to = parse_board_pos(s.substring_char(2, n));
    match (from, to) {
        (Ok(a), Ok(b)) => Ok((a, b)),
        _ => Err(ParseError::InvalidCoordinate),
    }
}

/// A letter and a digit parse exactly when the letter is one of `A`-`H` and
/// the digit one of `1`-`8`, giving the letter's offset from `A` as the row
/// and the digit less one as the column.
pub proof fn lemma_parse_domain(l: char, d: char)
    ensures
        ('A' <= l <= 'H' && '1' <= d <= '8') ==> parse_spec(seq![l, d]) == Ok::<(i8, i8), ParseError>(
            ((l as u32 - 'A' as u32) as i8, (d as u32 - '1' as u32) as i8),
        ),
        !('A' <= l <= 'H' && '1' <= d <= '8') ==> parse_spec(seq![l, d]) == Err::<(i8, i8), ParseError>(
            ParseError::InvalidCoordinate,
        ),
{
}

} // verus!
