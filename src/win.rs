//! Deciding whether the game is over.
//!
//! Only player 2's king is inspected: player 2 wins by bringing it to rows 0
//! or 1, whatever stands around it; elsewhere, player 1 wins by hemming it in.
use vstd::prelude::*;
use crate::board::{cell, get_board_value, lookup, on_board, Board, EMPTY};

verus! {

/// Code of player 2's king, the one piece the game turns on.
pub const HUNTED_KING: i8 = 4;

/// All four diagonal neighbours of (`r`, `c`) are occupied or off the board.
pub open spec fn surrounded(b: Board, r: int, c: int) -> bool {
    &&& lookup(b, r - 1, c - 1) != EMPTY
    &&& lookup(b, r - 1, c + 1) != EMPTY
    &&& lookup(b, r + 1, c + 1) != EMPTY
    &&& lookup(b, r + 1, c - 1) != EMPTY
}

/// The winner that the cell (`r`, `c`) alone decides, if any.
pub open spec fn cell_verdict(b: Board, r: int, c: int) -> Option<u8> {
    if cell(b, r, c) != HUNTED_KING {
        None
    } else if r <= 1 {
        Some(2u8)
    } else if surrounded(b, r, c) {
        Some(1u8)
    } else {
        None
    }
}

/// The first verdict among the cells from row-major index `k` on.
pub open spec fn scan_from(b: Board, k: int) -> Option<u8>
    decreases 64 - k,
{
    if k < 0 || k >= 64 {
        None
    } else if cell_verdict(b, k / 8, k % 8) is Some {
        cell_verdict(b, k / 8, k % 8)
    } else {
        scan_from(b, k + 1)
    }
}

/// Player 2's king stands in rows 0 or 1.
pub open spec fn king_home(b: Board) -> bool {
    exists|r: int, c: int| 0 <= r <= 1 && 0 <= c < 8 && #[trigger] cell(b, r, c) == HUNTED_KING
}

/// Player 2's king stands somewhere with all four diagonal neighbours taken.
pub open spec fn king_surrounded(b: Board) -> bool {
    exists|r: int, c: int|
        on_board(r, c) && #[trigger] cell(b, r, c) == HUNTED_KING && surrounded(b, r, c)
}

/// The winner on `b`: player 2 if its king has reached the home rows, else
/// player 1 if that king is surrounded anywhere, else nobody yet.
pub open spec fn winner(b: Board) -> Option<u8> {
    if king_home(b) {
        Some(2u8)
    } else if king_surrounded(b) {
        Some(1u8)
    } else {
        None
    }
}

proof fn lemma_index(r: int, c: int)
    requires
        on_board(r, c),
    ensures
        (8 * r + c) / 8 == r,
        (8 * r + c) % 8 == c,
        0 <= 8 * r + c < 64,
{
}

/// From index `k` on, the scan reports player 2 when a king in the home rows
/// lies at index `k0` at or after `k`.
proof fn lemma_scan_home(b: Board, k: int, k0: int)
    requires
        0 <= k <= k0 < 16,
        cell(b, k0 / 8, k0 % 8) == HUNTED_KING,
    ensures
        scan_from(b, k) == Some(2u8),
    decreases k0 - k,
{
    if k < k0 {
        lemma_scan_home(b, k + 1, k0);
    }
}

/// With no king in the home rows, the scan from `k` reports player 1 exactly
/// when some later index holds a surrounded king, and nothing otherwise.
proof fn lemma_scan_away(b: Board, k: int)
    requires
        0 <= k <= 64,
        !king_home(b),
    ensures
        scan_from(b, k) == (if exists|j: int|
            k <= j < 64 && #[trigger] cell(b, j / 8, j % 8) == HUNTED_KING && surrounded(
                b,
                j / 8,
                j % 8,
            ) {
            Some(1u8)
        } else {
            None::<u8>
        }),
    decreases 64 - k,
{
    if k < 64 {
        lemma_scan_away(b, k + 1);
        assert(0 <= k / 8 < 8 && 0 <= k % 8 < 8);
        if cell(b, k / 8, k % 8) == HUNTED_KING && k / 8 <= 1 {
            assert(king_home(b));
        }
    }
}

/// The row-major scan gives exactly the winner that the rules name.
proof fn lemma_scan_is_winner(b: Board)
    ensures
        scan_from(b, 0) == winner(b),
{
    if king_home(b) {
        let (r, c) = choose|r: int, c: int|
            0 <= r <= 1 && 0 <= c < 8 && #[trigger] cell(b, r, c) == HUNTED_KING;
        lemma_index(r, c);
        lemma_scan_home(b, 0, 8 * r + c);
    } else {
        lemma_scan_away(b, 0);
        if king_surrounded(b) {
            let (r, c) = choose|r: int, c: int|
                on_board(r, c) && #[trigger] cell(b, r, c) == HUNTED_KING && surrounded(b, r, c);
            lemma_index(r, c);
            let j = 8 * r + c;
            assert(cell(b, j / 8, j % 8) == HUNTED_KING && surrounded(b, j / 8, j % 8));
        } else {
            assert forall|j: int| 0 <= j < 64 && #[trigger] cell(b, j / 8, j % 8) == HUNTED_KING
                implies !surrounded(b, j / 8, j % 8) by {
                assert(on_board(j / 8, j % 8));
            }
        }
    }
}

/// Putting a piece other than player 2's king on an empty cell never takes a
/// win away or changes its winner; at most it makes player 1 win.
pub proof fn lemma_occupying_keeps_win(b0: Board, b1: Board, r0: int, c0: int)
    requires
        on_board(r0, c0),
        cell(b0, r0, c0) == EMPTY,
        1 <= cell(b1, r0, c0) <= 3,
        forall|r: int, c: int|
            on_board(r, c) && !(r == r0 && c == c0) ==> #[trigger] cell(b1, r, c) == cell(b0, r, c),
    ensures
        winner(b0) is Some ==> winner(b1) == winner(b0),
        winner(b0) is None ==> winner(b1) is None || winner(b1) == Some(1u8),
{
    if king_home(b0) {
        let (r, c) = choose|r: int, c: int|
            0 <= r <= 1 && 0 <= c < 8 && #[trigger] cell(b0, r, c) == HUNTED_KING;
        assert(cell(b1, r, c) == HUNTED_KING);
    }
    if king_home(b1) {
        let (r, c) = choose|r: int, c: int|
            0 <= r <= 1 && 0 <= c < 8 && #[trigger] cell(b1, r, c) == HUNTED_KING;
        assert(cell(b0, r, c) == HUNTED_KING);
    }
    if king_surrounded(b0) {
        let (r, c) = choose|r: int, c: int|
            on_board(r, c) && #[trigger] cell(b0, r, c) == HUNTED_KING && surrounded(b0, r, c);
        assert(cell(b1, r, c) == HUNTED_KING);
        assert(lookup(b1, r - 1, c - 1) != EMPTY);
        assert(lookup(b1, r - 1, c + 1) != EMPTY);
        assert(lookup(b1, r + 1, c + 1) != EMPTY);
        assert(lookup(b1, r + 1, c - 1) != EMPTY);
    }
}

/// The winner, if the game is over: player 2 once its king is in rows 0 or 1,
/// else player 1 once that king is surrounded.
pub fn check_win(board: &Board) -> (w: Option<u8>)
    ensures
        w == winner(*board),
        w == scan_from(*board, 0),
        king_home(*board) ==> w == Some(2u8),
        w matches Some(p) ==> p == 1 || p == 2,
{
    proof {
        lemma_scan_is_winner(*board);
    }
    let mut k: usize = 0;
    while k < 64
        invariant
            k <= 64,
            scan_from(*board, 0) == scan_from(*board, k as int),
            scan_from(*board, 0) == winner(*board),
        decreases 64 - k,
    {
        let r = k / 8;
        let c = k % 8;
        if board[r][c] == HUNTED_KING {
            if r <= 1 {
                return Some(2);
            }
            let y = r as isize;
            let x = c as isize;
            if get_board_value(board, y - 1, x - 1) != EMPTY && get_board_value(board, y - 1, x + 1)
                != EMPTY && get_board_value(board, y + 1, x + 1) != EMPTY && get_board_value(
                board,
                y + 1,
                x - 1,
            ) != EMPTY {
                return Some(1);
            }
        }
        k = k + 1;
    }
    None
}

} // verus!
