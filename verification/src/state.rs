//! The serializable game state: the aggregate of board, turn, status, move
//! history and taunt log, together with its well-formedness invariant and
//! the error taxonomy of the manager.

use vstd::prelude::*;

use crate::board::Board;
use crate::board::cell_index;
use crate::player::Cell;
use crate::player::Player;
use crate::rules::eval_spec;

verus! {

/// Where a game stands: still being played, won by a player, or drawn.
#[derive(Clone, Copy, PartialEq, Eq, Structural, Debug)]
pub enum GameStatus {
    InProgress,
    Won(Player),
    Draw,
}

/// A completed placement: which player wrote which cell.
#[derive(Clone, Copy, PartialEq, Eq, Structural, Debug)]
pub struct Move {
    pub player: Player,
    pub row: usize,
    pub col: usize,
}

/// Every failure the manager can answer with. Validation errors are client
/// faults, `GameNotFound` means no active game, `DatabaseError` a failed
/// store, and `InternalError` a contract violation by a collaborator.
#[derive(Clone, PartialEq, Eq, Debug)]
pub enum GameError {
    CellOccupied { row: usize, col: usize },
    OutOfBounds { row: usize, col: usize },
    WrongTurn { expected: Player, actual: Player },
    GameOver { status: GameStatus },
    GameNotFound,
    DatabaseError { detail: String },
    InternalError { detail: String },
}

/// The HTTP status that a router reports for each error: validation errors
/// are client faults, a missing game is not-found, the rest are server
/// faults.
pub open spec fn http_status_spec(e: GameError) -> u16 {
    match e {
        GameError::CellOccupied { .. } => 400,
        GameError::OutOfBounds { .. } => 400,
        GameError::WrongTurn { .. } => 400,
        GameError::GameOver { .. } => 400,
        GameError::GameNotFound => 404,
        GameError::DatabaseError { .. } => 500,
        GameError::InternalError { .. } => 500,
    }
}

/// Maps an error to the HTTP status code its kind is reported with.
pub fn http_status(e: &GameError) -> (r: u16)
    ensures
        r == http_status_spec(*e),
{
    match e {
        GameError::CellOccupied { .. } => 400,
        GameError::OutOfBounds { .. } => 400,
        GameError::WrongTurn { .. } => 400,
        GameError::GameOver { .. } => 400,
        GameError::GameNotFound => 404,
        GameError::DatabaseError { .. } => 500,
        GameError::InternalError { .. } => 500,
    }
}

/// The full snapshot of one game session.
#[derive(Debug, PartialEq, Eq)]
pub struct GameState {
    pub id: u64,
    pub board: Board,
    pub current_turn: Player,
    pub status: GameStatus,
    pub human_player: Player,
    pub move_history: Vec<Move>,
    pub taunts: Vec<String>,
}

/// The mathematical view of a `GameState`.
#[verifier::ext_equal]
pub ghost struct GameStateV {
    pub id: u64,
    pub board: Seq<Cell>,
    pub current_turn: Player,
    pub status: GameStatus,
    pub human_player: Player,
    pub move_history: Seq<Move>,
    pub taunts: Seq<Seq<char>>,
}

impl View for GameState {
    type V = GameStateV;

    open spec fn view(&self) -> GameStateV {
        GameStateV {
            id: self.id,
            board: self.board@,
            current_turn: self.current_turn,
            status: self.status,
            human_player: self.human_player,
            move_history: self.move_history@,
            taunts: self.taunts.deep_view(),
        }
    }
}

/// The player whose move is the `n`-th of a game (counting from zero): X
/// starts, and the players strictly alternate.
pub open spec fn turn_at(n: int) -> Player {
    if n % 2 == 0 {
        Player::X
    } else {
        Player::O
    }
}

/// 1 for an occupied cell, 0 for an empty one.
pub open spec fn occ_val(c: Cell) -> int {
    if c is Occupied {
        1
    } else {
        0
    }
}

/// How many of the first `n` cells of `b` are occupied.
pub open spec fn count_occupied_upto(b: Seq<Cell>, n: int) -> int
    decreases n,
{
    if n <= 0 {
        0
    } else {
        count_occupied_upto(b, n - 1) + occ_val(b[n - 1])
    }
}

/// How many cells of `b` are occupied.
pub open spec fn count_occupied(b: Seq<Cell>) -> int {
    count_occupied_upto(b, b.len() as int)
}

proof fn lemma_count_upto_update(b: Seq<Cell>, i: int, c: Cell, n: int)
    requires
        0 <= i < b.len(),
        n <= b.len(),
    ensures
        count_occupied_upto(b.update(i, c), n) == count_occupied_upto(b, n) + if 0 <= i < n {
            occ_val(c) - occ_val(b[i])
        } else {
            0
        },
    decreases n,
{
    if n > 0 {
        lemma_count_upto_update(b, i, c, n - 1);
    }
}

/// Writing an occupied cell over an empty one raises the occupied count by
/// exactly one.
pub proof fn lemma_count_occupied_update(b: Seq<Cell>, i: int, c: Cell)
    requires
        0 <= i < b.len(),
        b[i] is Empty,
        c is Occupied,
    ensures
        count_occupied(b.update(i, c)) == count_occupied(b) + 1,
{
    lemma_count_upto_update(b, i, c, b.len() as int);
}

/// A board whose first `n` cells are all empty has no occupied cell among
/// them.
pub proof fn lemma_count_occupied_empty(b: Seq<Cell>, n: int)
    requires
        forall|j: int| 0 <= j < n ==> !(#[trigger] b[j] is Occupied),
    ensures
        count_occupied_upto(b, n) == 0,
    decreases n,
{
    if n > 0 {
        lemma_count_occupied_empty(b, n - 1);
    }
}

impl GameStateV {
    /// The `i`-th recorded move belongs to the player whose turn it was, is
    /// in bounds, and its cell is held by that player on the board.
    pub open spec fn move_ok(self, i: int) -> bool {
        let m = self.move_history[i];
        &&& m.player == turn_at(i)
        &&& m.row < 3
        &&& m.col < 3
        &&& self.board[cell_index(m.row as int, m.col as int)] == Cell::Occupied(m.player)
    }

    /// Well-formedness of a game state: nine cells; the human plays X; the
    /// occupied-cell count equals the history length; moves alternate
    /// starting with X and match the board; the turn is the one after the
    /// last recorded move; and the status is exactly what the rules engine
    /// says of the board.
    pub open spec fn wf(self) -> bool {
        &&& self.board.len() == 9
        &&& self.human_player == Player::X
        &&& count_occupied(self.board) == self.move_history.len()
        &&& forall|i: int| 0 <= i < self.move_history.len() ==> #[trigger] self.move_ok(i)
        &&& self.current_turn == turn_at(self.move_history.len() as int)
        &&& self.status == eval_spec(self.board)
    }
}

/// Turn alternation: in a well-formed game the `n`-th move was made by the
/// player whose turn it was, each move's player is the opponent of the
/// previous mover, and the current turn is the one after the last move.
pub proof fn lemma_turn_alternation(g: GameStateV)
    requires
        g.wf(),
    ensures
        forall|n: int|
            0 <= n < g.move_history.len() ==> (#[trigger] g.move_history[n]).player == turn_at(n),
        forall|n: int|
            0 <= n && n + 1 < g.move_history.len() ==> g.move_history[n + 1].player == (
            #[trigger] g.move_history[n]).player.opponent_spec(),
        g.current_turn == turn_at(g.move_history.len() as int),
{
    assert forall|n: int| 0 <= n < g.move_history.len() implies (
    #[trigger] g.move_history[n]).player == turn_at(n) by {
        assert(g.move_ok(n));
    }
    assert forall|n: int| 0 <= n && n + 1 < g.move_history.len() implies g.move_history[n
        + 1].player == (#[trigger] g.move_history[n]).player.opponent_spec() by {
        assert(g.move_ok(n));
        assert(g.move_ok(n + 1));
    }
}

/// Occupancy: in a well-formed game the number of occupied cells always
/// equals the length of the move history.
pub proof fn lemma_occupancy(g: GameStateV)
    requires
        g.wf(),
    ensures
        count_occupied(g.board) == g.move_history.len(),
{
}

fn copy_moves(v: &Vec<Move>) -> (r: Vec<Move>)
    ensures
        r@ == v@,
{
    let mut out: Vec<Move> = Vec::new();
    let mut i: usize = 0;
    while i < v.len()
        invariant
            i <= v.len(),
            out@ == v@.subrange(0, i as int),
        decreases v.len() - i,
    {
        out.push(v[i]);
        i = i + 1;
    }
    proof {
        assert(out@ =~= v@);
    }
    out
}

fn copy_taunts(v: &Vec<String>) -> (r: Vec<String>)
    ensures
        r.deep_view() == v.deep_view(),
{
    let mut out: Vec<String> = Vec::new();
    let mut i: usize = 0;
    while i < v.len()
        invariant
            i <= v.len(),
            out@.len() == i,
            forall|j: int| 0 <= j < i ==> #[trigger] out@[j]@ == v@[j]@,
        decreases v.len() - i,
    {
        out.push(v[i].clone());
        i = i + 1;
    }
    proof {
        assert(out.deep_view() =~= v.deep_view());
    }
    out
}

impl GameState {
    /// A deep copy: a fresh state whose view equals this one's.
    pub fn snapshot(&self) -> (r: GameState)
        ensures
            r@ == self@,
    {
        let r = GameState {
            id: self.id,
            board: self.board.snapshot(),
            current_turn: self.current_turn,
            status: self.status,
            human_player: self.human_player,
            move_history: copy_moves(&self.move_history),
            taunts: copy_taunts(&self.taunts),
        };
        proof {
            assert(r@ =~= self@);
        }
        r
    }
}

} // verus!
