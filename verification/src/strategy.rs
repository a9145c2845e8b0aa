//! The opponent's move selection: a narrow capability the manager depends
//! on, so that a different engine or a test double can be plugged in. The
//! manager never trusts a reply: it re-validates every choice through the
//! rules engine and treats a bad one as an internal error.

use vstd::prelude::*;

use crate::board::Board;
use crate::board::cell_index;
use crate::player::Cell;
use crate::player::Player;
use crate::rules::board_full;

verus! {

/// Picks the next move for `player` on a board that still has room. No
/// promise is made about the choice: the caller must validate it.
pub trait Strategy: Sized {
    /// The row and column the strategy wants `player` to take.
    fn next_move(&mut self, board: &Board, player: Player) -> (r: (usize, usize))
        requires
            board.wf(),
            exists|i: int| 0 <= i < 9 && board@[i] is Empty,
    ;
}

/// The first empty cell of the board in row-major order, or none when the
/// board is full.
pub fn first_empty(board: &Board) -> (r: Option<(usize, usize)>)
    requires
        board.wf(),
    ensures
        match r {
            Some(rc) => {
                &&& rc.0 < 3
                &&& rc.1 < 3
                &&& board@[cell_index(rc.0 as int, rc.1 as int)] is Empty
                &&& forall|j: int|
                    0 <= j < cell_index(rc.0 as int, rc.1 as int) ==> board@[j] is Occupied
            },
            None => board_full(board@),
        },
{
    let mut i: usize = 0;
    while i < 9
        invariant
            board.wf(),
            i <= 9,
            forall|j: int| 0 <= j < i ==> board@[j] is Occupied,
        decreases 9 - i,
    {
        match board.at(i) {
            Cell::Empty => {
                return Some((i / 3, i % 3));
            },
            Cell::Occupied(_) => {},
        }
        i = i + 1;
    }
    None
}

/// The built-in opponent: takes the first empty cell in row-major order.
pub struct FirstEmptyStrategy;

impl Strategy for FirstEmptyStrategy {
    fn next_move(&mut self, board: &Board, _player: Player) -> (r: (usize, usize)) {
        match first_empty(board) {
            Some(rc) => rc,
            None => {
                // The caller only asks while the board has room, and a full
                // board is exactly when the search answers nothing.
                proof {
                    assert(false);
                }
                (0, 0)
            },
        }
    }
}

} // verus!
