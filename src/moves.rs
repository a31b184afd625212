//! Checking and making a move: one diagonal step onto an empty cell.
use vstd::prelude::*;
use crate::board::{cell, on_board, wf_board, Board, EMPTY};

verus! {

/// Why a move was refused.
#[derive(PartialEq, Eq, Structural, Debug, Clone, Copy)]
pub enum MoveError {
    /// The source cell is empty or holds the opponent's piece.
    NotYourPiece,
    /// No diagonal step leads to the destination, or the destination is occupied.
    InvalidMovement,
}

impl MoveError {
    /// A short description for the player.
    pub fn message(&self) -> (s: &'static str)
        ensures
            s@ == self.message_spec()@,
    {
        match self {
            MoveError::NotYourPiece => "Not your piece",
            MoveError::InvalidMovement => "Invalid Movement",
        }
    }

    pub open spec fn message_spec(&self) -> &'static str {
        match self {
            MoveError::NotYourPiece => "Not your piece",
            MoveError::InvalidMovement => "Invalid Movement",
        }
    }
}

/// `v` is `player`'s regular piece or `player`'s king.
pub open spec fn owns(v: i8, player: i8) -> bool {
    v == player || v == player + 2
}

/// A piece with code `v` may change its row by `dr`: regular pieces go
/// forward only (player 1 up, player 2 down), kings either way.
pub open spec fn row_step_allowed(v: i8, dr: int) -> bool {
    if v == 1 {
        dr == 1
    } else if v == 2 {
        dr == -1
    } else {
        dr == 1 || dr == -1
    }
}

/// The piece at `from` may step to `to`: a diagonal step in an allowed
/// direction onto an empty cell.
pub open spec fn step_ok(b: Board, from: (i8, i8), to: (i8, i8)) -> bool {
    let v = cell(b, from.0 as int, from.1 as int);
    &&& row_step_allowed(v, to.0 - from.0)
    &&& (to.1 - from.1 == 1 || to.1 - from.1 == -1)
    &&& cell(b, to.0 as int, to.1 as int) == EMPTY
}

/// What a move by `player` from `from` to `to` on `b` returns.
pub open spec fn move_outcome(b: Board, from: (i8, i8), to: (i8, i8), player: i8) -> Result<
    (),
    MoveError,
> {
    if !owns(cell(b, from.0 as int, from.1 as int), player) {
        Err(MoveError::NotYourPiece)
    } else if !step_ok(b, from, to) {
        Err(MoveError::InvalidMovement)
    } else {
        Ok(())
    }
}

/// The cell at (`r`, `c`) once the piece at `from` has moved to `to`.
pub open spec fn cell_after_move(b: Board, from: (i8, i8), to: (i8, i8), r: int, c: int) -> i8 {
    if r == to.0 && c == to.1 {
        cell(b, from.0 as int, from.1 as int)
    } else if r == from.0 && c == from.1 {
        EMPTY
    } else {
        cell(b, r, c)
    }
}

/// Moves `player`'s piece from `from` to `to` if the rules allow it; on
/// failure the board is left as it was.
pub fn move_piece(board: &mut Board, from: &(i8, i8), to: &(i8, i8), player: &i8) -> (r: Result<
    (),
    MoveError,
>)
    requires
        on_board(from.0 as int, from.1 as int),
        on_board(to.0 as int, to.1 as int),
        *player == 1 || *player == 2,
    ensures
        r == move_outcome(*old(board), *from, *to, *player),
        r is Err ==> *final(board) == *old(board),
        r is Ok ==> forall|i: int, j: int|
            on_board(i, j) ==> #[trigger] cell(*final(board), i, j) == cell_after_move(
                *old(board),
                *from,
                *to,
                i,
                j,
            ),
        wf_board(*old(board)) ==> wf_board(*final(board)),
        // only the mover's own pieces move
        !owns(cell(*old(board), from.0 as int, from.1 as int), *player) ==> r == Err::<
            (),
            MoveError,
        >(MoveError::NotYourPiece),
        // straight moves never succeed
        (to.0 == from.0 || to.1 == from.1) ==> r is Err,
        // regular pieces never step backwards
        cell(*old(board), from.0 as int, from.1 as int) == 1 && to.0 == from.0 - 1 ==> r is Err,
        cell(*old(board), from.0 as int, from.1 as int) == 2 && to.0 == from.0 + 1 ==> r is Err,
        // kings step diagonally both ways
        ({
            let v = cell(*old(board), from.0 as int, from.1 as int);
            &&& owns(v, *player)
            &&& (v == 3 || v == 4)
            &&& (to.0 - from.0 == 1 || to.0 - from.0 == -1)
            &&& (to.1 - from.1 == 1 || to.1 - from.1 == -1)
            &&& cell(*old(board), to.0 as int, to.1 as int) == EMPTY
        }) ==> r is Ok,
        // an occupied destination is refused
        owns(cell(*old(board), from.0 as int, from.1 as int), *player) && cell(
            *old(board),
            to.0 as int,
            to.1 as int,
        ) != EMPTY ==> r == Err::<(), MoveError>(MoveError::InvalidMovement),
{
    let fr = from.0 as usize;
    let fc = from.1 as usize;
    let tr = to.0 as usize;
    let tc = to.1 as usize;
    let v = board[fr][fc];
    if v != *player && v != *player + 2 {
        return Err(MoveError::NotYourPiece);
    }
    let dr: i8 = to.0 - from.0;
    let dc: i8 = to.1 - from.1;
    let row_ok = if v == 1 {
        dr == 1
    } else if v == 2 {
        dr == -1
    } else {
        dr == 1 || dr == -1
    };
    if !row_ok || (dc != 1 && dc != -1) || board[tr][tc] != EMPTY {
        return Err(MoveError::InvalidMovement);
    }
    board[tr][tc] = v;
    board[fr][fc] = EMPTY;
    assert(forall|i: int, j: int|
        on_board(i, j) ==> #[trigger] cell(*board, i, j) == cell_after_move(
            *old(board),
            *from,
            *to,
            i,
            j,
        ));
    Ok(())
}

} // verus!
