//! How the board is drawn on an ANSI terminal: a checkered background and a
//! coloured glyph for each piece.
use vstd::prelude::*;
use vstd::string::*;
use crate::board::{cell, on_board, Board};

verus! {

/// Foreground colour of a square's content.
#[derive(PartialEq, Eq, Structural, Debug, Clone, Copy)]
pub enum FgColor {
    Red,
    Grey,
    Plain,
}

/// Background colour of a square.
#[derive(PartialEq, Eq, Structural, Debug, Clone, Copy)]
pub enum BgColor {
    Black,
    White,
}

/// The SGR parameter of a foreground colour.
pub open spec fn fg_param(fg: FgColor) -> Seq<char> {
    match fg {
        FgColor::Red => seq!['3', '2'],
        FgColor::Grey => seq!['3', '4'],
        FgColor::Plain => seq!['0'],
    }
}

/// The SGR parameter of a background colour.
pub open spec fn bg_param(bg: BgColor) -> Seq<char> {
    match bg {
        BgColor::Black => seq!['4', '0'],
        BgColor::White => seq!['4', '7'],
    }
}

/// The escape sequence `ESC [ fg ; bg m` that selects both colours.
pub open spec fn color_spec(fg: FgColor, bg: BgColor) -> Seq<char> {
    seq!['\x1B', '['] + fg_param(fg) + seq![';'] + bg_param(bg) + seq!['m']
}

fn fg_str(fg: FgColor) -> (s: &'static str)
    ensures
        s@ == fg_param(fg),
{
    match fg {
        FgColor::Red => {
            proof {
                reveal_strlit("32");
            }
            "32"
        },
        FgColor::Grey => {
            proof {
                reveal_strlit("34");
            }
            "34"
        },
        FgColor::Plain => {
            proof {
                reveal_strlit("0");
            }
            "0"
        },
    }
}

fn bg_str(bg: BgColor) -> (s: &'static str)
    ensures
        s@ == bg_param(bg),
{
    match bg {
        BgColor::Black => {
            proof {
                reveal_strlit("40");
            }
            "40"
        },
        BgColor::White => {
            proof {
                reveal_strlit("47");
            }
            "47"
        },
    }
}

/// The escape sequence that selects foreground `fg` on background `bg`.
pub fn color(fg: FgColor, bg: BgColor) -> (s: String)
    ensures
        s@ == color_spec(fg, bg),
{
    proof {
        reveal_strlit("\x1B[");
        reveal_strlit(";");
        reveal_strlit("m");
    }
    let mut s = String::from_str("\x1B[");
    s.append(fg_str(fg));
    s.append(";");
    s.append(bg_str(bg));
    s.append("m");
    assert(s@ =~= color_spec(fg, bg));
    s
}

/// Squares whose row and column have the same parity are white.
pub open spec fn bg_at(r: int, c: int) -> BgColor {
    if r % 2 == c % 2 {
        BgColor::White
    } else {
        BgColor::Black
    }
}

/// Player 1's pieces are red, player 2's grey, an empty square plain.
pub open spec fn fg_of(v: i8) -> FgColor {
    if v == 1 || v == 3 {
        FgColor::Red
    } else if v == 2 || v == 4 {
        FgColor::Grey
    } else {
        FgColor::Plain
    }
}

/// A flower for a regular piece, a star for a king, a blank for an empty square.
pub open spec fn glyph_of(v: i8) -> Seq<char> {
    if v == 1 || v == 2 {
        seq!['\u{273F}']
    } else if v == 3 || v == 4 {
        seq!['\u{2742}']
    } else {
        seq![' ']
    }
}

/// The background of the square at (`row`, `col`).
pub fn square_bg(row: usize, col: usize) -> (bg: BgColor)
    ensures
        bg == bg_at(row as int, col as int),
{
    if row % 2 == col % 2 {
        BgColor::White
    } else {
        BgColor::Black
    }
}

/// The text drawn for the square at (`row`, `col`): a space, the colour
/// escape, and the glyph of its content.
pub fn cell_text(board: &Board, row: usize, col: usize) -> (s: String)
    requires
        on_board(row as int, col as int),
    ensures
        ({
            let v = cell(*board, row as int, col as int);
            s@ == seq![' '] + color_spec(fg_of(v), bg_at(row as int, col as int)) + glyph_of(v)
        }),
{
    let v = board[row][col];
    let fg = if v == 1 || v == 3 {
        FgColor::Red
    } else if v == 2 || v == 4 {
        FgColor::Grey
    } else {
        FgColor::Plain
    };
    let glyph: &str = if v == 1 || v == 2 {
        proof {
            reveal_strlit("\u{273F}");
        }
        "\u{273F}"
    } else if v == 3 || v == 4 {
        proof {
            reveal_strlit("\u{2742}");
        }
        "\u{2742}"
    } else {
        proof {
            reveal_strlit(" ");
        }
        " "
    };
    proof {
        reveal_strlit(" ");
    }
    let mut s = String::from_str(" ");
    let code = color(fg, square_bg(row, col));
    s.append(code.as_str());
    s.append(glyph);
    s
}

/// The rank letter shown left of row `row`: `A` for row 0.
pub fn row_label(row: u8) -> (c: char)
    requires
        row < 8,
    ensures
        c as u32 == 'A' as u32 + row,
{
    match row {
        0 => 'A',
        1 => 'B',
        2 => 'C',
        3 => 'D',
        4 => 'E',
        5 => 'F',
        6 => 'G',
        _ => 'H',
    }
}

} // verus!
