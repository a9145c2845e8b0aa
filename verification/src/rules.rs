//! The rules engine: stateless validation of a proposed move and detection
//! of the terminal outcome of a board. It is the single source of truth the
//! manager consults before any mutation.

use vstd::prelude::*;

use crate::board::Board;
use crate::board::cell_index;
use crate::player::Cell;
use crate::player::Player;
use crate::state::GameError;
use crate::state::GameState;
use crate::state::GameStateV;
use crate::state::GameStatus;

verus! {

/// The flat index of the `j`-th cell of winning line `k`. Lines are numbered
/// in the fixed scan order: the three rows, then the three columns, then the
/// two diagonals.
pub open spec fn line_cell(k: int, j: int) -> int {
    if k < 3 {
        3 * k + j
    } else if k < 6 {
        (k - 3) + 3 * j
    } else if k == 6 {
        4 * j
    } else {
        2 + 2 * j
    }
}

/// The player holding all three cells of line `k`, if any.
pub open spec fn line_winner(b: Seq<Cell>, k: int) -> Option<Player> {
    match b[line_cell(k, 0)] {
        Cell::Occupied(p) => if b[line_cell(k, 1)] == Cell::Occupied(p) && b[line_cell(k, 2)]
            == Cell::Occupied(p) {
            Some(p)
        } else {
            None
        },
        Cell::Empty => None,
    }
}

/// The winner of the first won line at or after `k` in the scan order.
pub open spec fn first_winner_from(b: Seq<Cell>, k: int) -> Option<Player>
    decreases 8 - k,
{
    if k < 0 || k >= 8 {
        None
    } else if line_winner(b, k) is Some {
        line_winner(b, k)
    } else {
        first_winner_from(b, k + 1)
    }
}

/// The winner of the first won line in the scan order, if any line is won.
pub open spec fn first_winner(b: Seq<Cell>) -> Option<Player> {
    first_winner_from(b, 0)
}

/// Whether every cell of the board is occupied.
pub open spec fn board_full(b: Seq<Cell>) -> bool {
    forall|i: int| 0 <= i < 9 ==> b[i] is Occupied
}

/// The outcome of a board: won by the player of the first won line in the
/// scan order; a draw when no line is won and the board is full; otherwise
/// still in progress.
pub open spec fn eval_spec(b: Seq<Cell>) -> GameStatus {
    match first_winner(b) {
        Some(p) => GameStatus::Won(p),
        None => if board_full(b) {
            GameStatus::Draw
        } else {
            GameStatus::InProgress
        },
    }
}

/// What `validate_move` answers for a proposed move: the four checks run in
/// the fixed priority order bounds, turn, occupancy, finished game, and the
/// first one to fail names the error.
pub open spec fn validate_spec(g: GameStateV, actor: Player, row: usize, col: usize) -> Result<
    (),
    GameError,
> {
    if row > 2 || col > 2 {
        Err(GameError::OutOfBounds { row, col })
    } else if actor != g.current_turn {
        Err(GameError::WrongTurn { expected: g.current_turn, actual: actor })
    } else if !(g.board[cell_index(row as int, col as int)] is Empty) {
        Err(GameError::CellOccupied { row, col })
    } else if !(g.status is InProgress) {
        Err(GameError::GameOver { status: g.status })
    } else {
        Ok(())
    }
}

/// Out-of-bounds coordinates dominate every other fault: whatever the board,
/// the turn or the status, the answer is `OutOfBounds`.
pub proof fn lemma_validation_priority(g: GameStateV, actor: Player, row: usize, col: usize)
    requires
        row > 2 || col > 2,
    ensures
        validate_spec(g, actor, row, col) == Err::<(), GameError>(
            GameError::OutOfBounds { row, col },
        ),
{
}

/// On a finished game no move validates: the answer is an error, and it is
/// `GameOver` exactly when bounds, turn and occupancy all pass.
pub proof fn lemma_terminal_move_rejected(g: GameStateV, actor: Player, row: usize, col: usize)
    requires
        !(g.status is InProgress),
    ensures
        validate_spec(g, actor, row, col) is Err,
        (row <= 2 && col <= 2 && actor == g.current_turn && g.board[cell_index(
            row as int,
            col as int,
        )] is Empty) ==> validate_spec(g, actor, row, col) == Err::<(), GameError>(
            GameError::GameOver { status: g.status },
        ),
{
}

proof fn lemma_first_winner_shift(b: Seq<Cell>, k: int)
    requires
        0 <= k <= 8,
    ensures
        first_winner_from(b, k) is Some <==> exists|j: int|
            k <= j < 8 && (#[trigger] line_winner(b, j)) is Some,
    decreases 8 - k,
{
    if k < 8 {
        lemma_first_winner_shift(b, k + 1);
        if line_winner(b, k) is Some {
            assert(k <= k < 8 && line_winner(b, k) is Some);
        }
    }
}

/// Win detection: some line is won exactly when the outcome is `Won`; when
/// every won line belongs to the same player, that player is the winner;
/// with no won line the outcome is `Draw` on a full board and `InProgress`
/// otherwise.
pub proof fn lemma_win_detection(b: Seq<Cell>)
    ensures
        (exists|k: int| 0 <= k < 8 && (#[trigger] line_winner(b, k)) is Some) <==> eval_spec(
            b,
        ) is Won,
        forall|p: Player|
            ((exists|k: int| 0 <= k < 8 && line_winner(b, k) == Some(p)) && (forall|j: int|
                0 <= j < 8 ==> (#[trigger] line_winner(b, j)) is None || line_winner(b, j) == Some(
                    p,
                ))) ==> eval_spec(b) == GameStatus::Won(p),
        (forall|k: int| 0 <= k < 8 ==> (#[trigger] line_winner(b, k)) is None) && board_full(b)
            ==> eval_spec(b) == GameStatus::Draw,
        (forall|k: int| 0 <= k < 8 ==> (#[trigger] line_winner(b, k)) is None) && !board_full(b)
            ==> eval_spec(b) == GameStatus::InProgress,
{
    lemma_first_winner_shift(b, 0);
    assert forall|p: Player|
        ((exists|k: int| 0 <= k < 8 && line_winner(b, k) == Some(p)) && (forall|j: int|
            0 <= j < 8 ==> (#[trigger] line_winner(b, j)) is None || line_winner(b, j) == Some(
                p,
            ))) implies eval_spec(b) == GameStatus::Won(p) by {
        lemma_first_winner_picks_some(b, 0);
    }
    if forall|k: int| 0 <= k < 8 ==> (#[trigger] line_winner(b, k)) is None {
        lemma_first_winner_skip(b, 8);
    }
}

proof fn lemma_first_winner_picks_some(b: Seq<Cell>, k: int)
    requires
        0 <= k <= 8,
    ensures
        (first_winner_from(b, k) matches Some(p) ==> exists|j: int|
            k <= j < 8 && line_winner(b, j) == Some(p)),
    decreases 8 - k,
{
    if k < 8 {
        lemma_first_winner_picks_some(b, k + 1);
        match line_winner(b, k) {
            Some(p) => {
                assert(k <= k < 8 && line_winner(b, k) == Some(p));
            },
            None => {},
        }
    }
}

/// The three flat cell indices of winning line `k`.
fn line_cells(k: usize) -> (r: (usize, usize, usize))
    requires
        k < 8,
    ensures
        r.0 == line_cell(k as int, 0),
        r.1 == line_cell(k as int, 1),
        r.2 == line_cell(k as int, 2),
        r.0 < 9 && r.1 < 9 && r.2 < 9,
{
    match k {
        0 => (0, 1, 2),
        1 => (3, 4, 5),
        2 => (6, 7, 8),
        3 => (0, 3, 6),
        4 => (1, 4, 7),
        5 => (2, 5, 8),
        6 => (0, 4, 8),
        _ => (2, 4, 6),
    }
}

/// If every line before `k` is lost, the first winner overall is the first
/// winner at or after `k`.
pub proof fn lemma_first_winner_skip(b: Seq<Cell>, k: int)
    requires
        0 <= k <= 8,
        forall|j: int| 0 <= j < k ==> #[trigger] line_winner(b, j) is None,
    ensures
        first_winner(b) == first_winner_from(b, k),
    decreases k,
{
    if k > 0 {
        lemma_first_winner_skip(b, k - 1);
    }
}

/// Scans all eight winning lines in the fixed order, then the whole board;
/// answers `eval_spec` exactly.
pub fn evaluate(board: &Board) -> (r: GameStatus)
    requires
        board.wf(),
    ensures
        r == eval_spec(board@),
{
    let mut k: usize = 0;
    while k < 8
        invariant
            board.wf(),
            k <= 8,
            forall|j: int| 0 <= j < k ==> #[trigger] line_winner(board@, j) is None,
        decreases 8 - k,
    {
        let (i0, i1, i2) = line_cells(k);
        let c0 = board.at(i0);
        let c1 = board.at(i1);
        let c2 = board.at(i2);
        match c0 {
            Cell::Occupied(p) => {
                if c1 == Cell::Occupied(p) && c2 == Cell::Occupied(p) {
                    proof {
                        assert(line_winner(board@, k as int) == Some(p));
                        lemma_first_winner_skip(board@, k as int);
                    }
                    return GameStatus::Won(p);
                }
            },
            Cell::Empty => {},
        }
        proof {
            assert(line_winner(board@, k as int) is None);
        }
        k = k + 1;
    }
    proof {
        lemma_first_winner_skip(board@, 8);
    }
    let mut i: usize = 0;
    while i < 9
        invariant
            board.wf(),
            i <= 9,
            first_winner(board@) is None,
            forall|j: int| 0 <= j < i ==> board@[j] is Occupied,
        decreases 9 - i,
    {
        match board.at(i) {
            Cell::Empty => {
                return GameStatus::InProgress;
            },
            Cell::Occupied(_) => {},
        }
        i = i + 1;
    }
    GameStatus::Draw
}

/// Runs the four validation checks in priority order against the given
/// state; answers `validate_spec` exactly.
pub fn validate_move(state: &GameState, actor: Player, row: usize, col: usize) -> (r: Result<
    (),
    GameError,
>)
    requires
        state.board.wf(),
    ensures
        r == validate_spec(state@, actor, row, col),
{
    if row > 2 || col > 2 {
        return Err(GameError::OutOfBounds { row, col });
    }
    if actor != state.current_turn {
        return Err(GameError::WrongTurn { expected: state.current_turn, actual: actor });
    }
    match state.board.get(row, col) {
        Cell::Occupied(_) => {
            return Err(GameError::CellOccupied { row, col });
        },
        Cell::Empty => {},
    }
    match state.status {
        GameStatus::InProgress => Ok(()),
        _ => Err(GameError::GameOver { status: state.status }),
    }
}

} // verus!
