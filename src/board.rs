//! The board: an 8x8 grid of cell codes, row-major.
use vstd::prelude::*;

verus! {

/// Cell codes: 0 empty, 1 and 2 the regular pieces of players 1 and 2,
/// 3 and 4 their kings.
pub type Board = [[i8; 8]; 8];

/// Code of an empty cell.
pub const EMPTY: i8 = 0;

/// What a neighbour lookup reports for a position off the board.
pub const OFF_BOARD: i8 = 5;

/// The code held at row `r`, column `c`.
pub open spec fn cell(b: Board, r: int, c: int) -> i8 {
    b@[r]@[c]
}

pub open spec fn on_board(r: int, c: int) -> bool {
    0 <= r < 8 && 0 <= c < 8
}

/// Every cell holds one of the five codes.
pub open spec fn wf_board(b: Board) -> bool {
    forall|r: int, c: int| on_board(r, c) ==> 0 <= #[trigger] cell(b, r, c) <= 4
}

/// The starting layout: player 1's regular pieces on row 0 at the even
/// columns, player 2's king in the far corner.
pub open spec fn initial_cell(r: int, c: int) -> i8 {
    if r == 0 && c % 2 == 0 {
        1
    } else if r == 7 && c == 7 {
        4
    } else {
        0
    }
}

/// What a lookup at (`r`, `c`) sees: the cell, or `OFF_BOARD` outside the grid.
pub open spec fn lookup(b: Board, r: int, c: int) -> i8 {
    if on_board(r, c) {
        cell(b, r, c)
    } else {
        OFF_BOARD
    }
}

/// A fresh board in the starting layout.
pub fn setup_fg_board() -> (b: Board)
    ensures
        wf_board(b),
        forall|r: int, c: int| on_board(r, c) ==> #[trigger] cell(b, r, c) == initial_cell(r, c),
{
    let mut b: Board = [[EMPTY; 8]; 8];
    b[0][0] = 1;
    b[0][2] = 1;
    b[0][4] = 1;
    b[0][6] = 1;
    b[7][7] = 4;
    b
}

/// The code at (`row`, `col`), or `OFF_BOARD` where either lies outside 0..8.
pub fn get_board_value(board: &Board, row: isize, col: isize) -> (v: i8)
    ensures
        v == lookup(*board, row as int, col as int),
{
    if row < 0 || col < 0 || row > 7 || col > 7 {
        return OFF_BOARD;
    }
    board[row as usize][col as usize]
}

} // verus!
