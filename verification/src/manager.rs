//! The game manager: the single authoritative orchestrator. It reads the
//! active game through the persistence port, validates every proposed move
//! through the rules engine, applies accepted moves, asks the opponent
//! strategy for its reply and re-validates it, and writes the result back
//! before answering. A whole turn pair (human move plus opponent reply) is
//! persisted at once, never by halves, and on any failure the persisted
//! record is left exactly as it was: the store is written only after a full
//! new state has been computed.

use vstd::prelude::*;

use crate::board::Board;
use crate::board::cell_index;
use crate::board::empty_board;
use crate::player::Cell;
use crate::player::Player;
use crate::rules::board_full;
use crate::rules::eval_spec;
use crate::rules::evaluate;
use crate::rules::lemma_first_winner_skip;
use crate::rules::line_cell;
use crate::rules::line_winner;
use crate::rules::validate_move;
use crate::rules::validate_spec;
use crate::state::GameError;
use crate::state::GameState;
use crate::state::GameStateV;
use crate::state::GameStatus;
use crate::state::Move;
use crate::state::lemma_count_occupied_empty;
use crate::state::lemma_count_occupied_update;
use crate::state::turn_at;
use crate::store::MemStore;
use crate::store::Store;
use crate::strategy::FirstEmptyStrategy;
use crate::strategy::Strategy;
use vstd::string::StringExecFns;

verus! {

/// The view of a freshly created game: empty board, X to move, in
/// progress, empty history and taunt log.
pub open spec fn new_game_view(id: u64) -> GameStateV {
    GameStateV {
        id,
        board: empty_board(),
        current_turn: Player::X,
        status: GameStatus::InProgress,
        human_player: Player::X,
        move_history: Seq::empty(),
        taunts: Seq::empty(),
    }
}

/// A fresh game is well-formed.
pub proof fn lemma_new_game_wf(id: u64)
    ensures
        new_game_view(id).wf(),
{
    let b = empty_board();
    assert forall|k: int| 0 <= k < 8 implies #[trigger] line_winner(b, k) is None by {
        assert(0 <= line_cell(k, 0) < 9);
        assert(b[line_cell(k, 0)] is Empty);
    }
    lemma_first_winner_skip(b, 8);
    assert(b[0] is Empty);
    assert(!board_full(b));
    lemma_count_occupied_empty(b, 9);
}

/// The state after `p` takes the cell at `row`, `col`: the cell is written,
/// the move is appended, the turn passes on, and the status is recomputed
/// by the rules engine.
pub open spec fn apply_move_view(g: GameStateV, p: Player, row: usize, col: usize) -> GameStateV {
    let b2 = g.board.update(cell_index(row as int, col as int), Cell::Occupied(p));
    GameStateV {
        board: b2,
        current_turn: turn_at(g.move_history.len() + 1 as int),
        status: eval_spec(b2),
        move_history: g.move_history.push(Move { player: p, row, col }),
        ..g
    }
}

/// Appending a taunt changes no conjunct of well-formedness.
proof fn lemma_taunt_preserves_wf(g: GameStateV, t: Seq<char>)
    requires
        g.wf(),
    ensures
        (GameStateV { taunts: g.taunts.push(t), ..g }).wf(),
{
    let g2 = GameStateV { taunts: g.taunts.push(t), ..g };
    assert forall|i: int| 0 <= i < g2.move_history.len() implies #[trigger] g2.move_ok(i) by {
        assert(g.move_ok(i));
    }
}

/// Applying a move that the rules engine accepted preserves
/// well-formedness.
pub proof fn lemma_apply_preserves_wf(g: GameStateV, p: Player, row: usize, col: usize)
    requires
        g.wf(),
        validate_spec(g, p, row, col) is Ok,
    ensures
        apply_move_view(g, p, row, col).wf(),
{
    let idx = cell_index(row as int, col as int);
    let g2 = apply_move_view(g, p, row, col);
    let n = g.move_history.len() as int;
    lemma_count_occupied_update(g.board, idx, Cell::Occupied(p));
    assert forall|i: int| 0 <= i < g2.move_history.len() implies #[trigger] g2.move_ok(i) by {
        if i < n {
            assert(g.move_ok(i));
            let m = g.move_history[i];
            assert(cell_index(m.row as int, m.col as int) != idx);
        } else {
            assert(g2.move_history[i] == Move { player: p, row, col });
        }
    }
}

fn apply_move(state: &mut GameState, p: Player, row: usize, col: usize)
    requires
        old(state).board.wf(),
        row < 3,
        col < 3,
    ensures
        final(state)@ == apply_move_view(old(state)@, p, row, col),
        final(state).board.wf(),
{
    state.board.set(row, col, Cell::Occupied(p));
    state.move_history.push(Move { player: p, row, col });
    state.current_turn = if state.move_history.len() % 2 == 0 {
        Player::X
    } else {
        Player::O
    };
    state.status = evaluate(&state.board);
    proof {
        assert(state@ =~= apply_move_view(old(state)@, p, row, col));
    }
}

fn new_game(id: u64) -> (r: GameState)
    ensures
        r@ == new_game_view(id),
        r.board.wf(),
{
    let r = GameState {
        id,
        board: Board::new(),
        current_turn: Player::X,
        status: GameStatus::InProgress,
        human_player: Player::X,
        move_history: Vec::new(),
        taunts: Vec::new(),
    };
    proof {
        assert(r@ =~= new_game_view(id));
    }
    r
}

/// The orchestrator owning the single active game. It is generic in its
/// two collaborators: the persistence port and the opponent strategy.
pub struct GameManager<S: Store, T: Strategy> {
    store: S,
    strategy: T,
    next_id: u64,
}

impl<S: Store, T: Strategy> GameManager<S, T> {
    /// What the persistence port currently holds.
    pub closed spec fn stored(self) -> Option<GameStateV> {
        self.store.stored()
    }

    /// The manager's invariant: whatever game is persisted is well-formed.
    pub open spec fn inv(self) -> bool {
        match self.stored() {
            Some(g) => g.wf(),
            None => true,
        }
    }

    /// A manager over the given persistence backend and opponent strategy;
    /// `next_id` seeds the identifiers of newly created games.
    pub fn with_parts(store: S, strategy: T, next_id: u64) -> (r: GameManager<S, T>)
        requires
            match store.stored() {
                Some(g) => g.wf(),
                None => true,
            },
        ensures
            r.inv(),
            r.stored() == store.stored(),
    {
        GameManager { store, strategy, next_id }
    }

    /// Creates a fresh game, persists it, and answers it. The identifier
    /// counter only moves forward when the record was durably written.
    fn create_game(&mut self) -> (r: Result<GameState, GameError>)
        requires
            old(self).inv(),
        ensures
            final(self).inv(),
            match r {
                Ok(s) => s@ == new_game_view(s@.id) && s@.wf() && final(self).stored() == Some(
                    s@,
                ),
                Err(e) => e matches GameError::DatabaseError { .. } && final(self).stored() == old(self).stored(),
            },
    {
        let fresh = new_game(self.next_id);
        proof {
            lemma_new_game_wf(self.next_id);
        }
        match self.store.save(&fresh) {
            Ok(()) => {
                self.next_id = if self.next_id == u64::MAX {
                    0
                } else {
                    self.next_id + 1
                };
                Ok(fresh)
            },
            Err(e) => Err(GameError::DatabaseError { detail: e.detail }),
        }
    }

    /// Answers the current active game; when none exists, creates a fresh
    /// one, persists it and answers that. Repeated calls while a game is
    /// active answer the same state and write nothing.
    pub fn get_or_create_game(&mut self) -> (r: Result<GameState, GameError>)
        requires
            old(self).inv(),
        ensures
            final(self).inv(),
            (old(self).stored() matches Some(g) ==> r matches Ok(s) && s@ == g && final(self).stored() == old(self).stored()),
            old(self).stored() is None ==> match r {
                Ok(s) => s@ == new_game_view(s@.id) && final(self).stored() == Some(s@),
                Err(e) => e matches GameError::DatabaseError { .. } && final(self).stored()
                    is None,
            },
            r matches Ok(s) ==> s@.wf(),
    {
        match self.store.load() {
            Some(s) => Ok(s),
            None => self.create_game(),
        }
    }

    /// Unconditionally discards the active game: creates a fresh one,
    /// persists it and answers it.
    pub fn restart_game(&mut self) -> (r: Result<GameState, GameError>)
        requires
            old(self).inv(),
        ensures
            final(self).inv(),
            match r {
                Ok(s) => s@ == new_game_view(s@.id) && s@.wf() && final(self).stored() == Some(
                    s@,
                ),
                Err(e) => e matches GameError::DatabaseError { .. } && final(self).stored() == old(self).stored(),
            },
    {
        self.create_game()
    }

    /// The sole gameplay entry point: validates and applies the human
    /// player's move, and unless that move ended the game, obtains the
    /// opponent's reply, re-validates it, and applies it too. The new state
    /// is persisted once, after both halves, and answered; every failure
    /// leaves the persisted record exactly as it was. A reply that the
    /// rules engine rejects is a contract violation of the strategy and is
    /// answered as an internal error, never applied.
    pub fn make_move(&mut self, row: usize, col: usize) -> (r: Result<GameState, GameError>)
        requires
            old(self).inv(),
        ensures
            final(self).inv(),
            old(self).stored() is None ==> r == Err::<GameState, GameError>(
                GameError::GameNotFound,
            ) && final(self).stored() is None,
            old(self).stored() matches Some(g) ==> match validate_spec(g, g.human_player, row, col) {
                Err(e) => r == Err::<GameState, GameError>(e) && final(self).stored() == old(self).stored(),
                Ok(_) => ({
                    let g1 = apply_move_view(g, g.human_player, row, col);
                    if !(g1.status is InProgress) {
                        match r {
                            Ok(s) => s@ == g1 && final(self).stored() == Some(g1),
                            Err(e) => e matches GameError::DatabaseError { .. } && final(self).stored() == old(self).stored(),
                        }
                    } else {
                        match r {
                            Ok(s) => final(self).stored() == Some(s@) && exists|
                                rr: usize,
                                cc: usize,
                            |
                                validate_spec(g1, g.human_player.opponent_spec(), rr, cc) is Ok
                                    && s@ == #[trigger] apply_move_view(
                                    g1,
                                    g.human_player.opponent_spec(),
                                    rr,
                                    cc,
                                ),
                            Err(e) => (e matches GameError::InternalError { .. }
                                || e matches GameError::DatabaseError { .. }) && final(self).stored() == old(self).stored(),
                        }
                    }
                }),
            },
            r matches Ok(s) ==> s@.wf(),
    {
        let loaded = self.store.load();
        match loaded {
            None => Err(GameError::GameNotFound),
            Some(mut s) => {
                let ghost g = s@;
                let human = s.human_player;
                match validate_move(&s, human, row, col) {
                    Err(e) => Err(e),
                    Ok(()) => {
                        apply_move(&mut s, human, row, col);
                        proof {
                            lemma_apply_preserves_wf(g, g.human_player, row, col);
                        }
                        let ghost g1 = s@;
                        let terminal = match s.status {
                            GameStatus::InProgress => false,
                            _ => true,
                        };
                        if terminal {
                            match self.store.save(&s) {
                                Ok(()) => Ok(s),
                                Err(e) => Err(GameError::DatabaseError { detail: e.detail }),
                            }
                        } else {
                            proof {
                                assert(!board_full(g1.board));
                                let i = choose|i: int| 0 <= i < 9 && !(g1.board[i] is Occupied);
                                assert(g1.board[i] is Empty);
                            }
                            let opp = human.opponent();
                            let (rr, cc) = self.strategy.next_move(&s.board, opp);
                            match validate_move(&s, opp, rr, cc) {
                                Err(_) => Err(
                                    GameError::InternalError {
                                        detail: String::from_str(
                                            "opponent strategy returned an illegal move",
                                        ),
                                    },
                                ),
                                Ok(()) => {
                                    apply_move(&mut s, opp, rr, cc);
                                    proof {
                                        lemma_apply_preserves_wf(
                                            g1,
                                            g.human_player.opponent_spec(),
                                            rr,
                                            cc,
                                        );
                                        assert(validate_spec(
                                            g1,
                                            g.human_player.opponent_spec(),
                                            rr,
                                            cc,
                                        ) is Ok && s@ == apply_move_view(
                                            g1,
                                            g.human_player.opponent_spec(),
                                            rr,
                                            cc,
                                        ));
                                    }
                                    match self.store.save(&s) {
                                        Ok(()) => Ok(s),
                                        Err(e) => Err(
                                            GameError::DatabaseError { detail: e.detail },
                                        ),
                                    }
                                },
                            }
                        }
                    },
                }
            },
        }
    }

    /// Appends `message` to the taunt log of the current game and persists
    /// it; taunting stays open after the game ends, since it mutates no
    /// board state.
    pub fn add_taunt(&mut self, message: String) -> (r: Result<(), GameError>)
        requires
            old(self).inv(),
        ensures
            final(self).inv(),
            old(self).stored() is None ==> r == Err::<(), GameError>(GameError::GameNotFound)
                && final(self).stored() is None,
            old(self).stored() matches Some(g) ==> match r {
                Ok(_) => final(self).stored() == Some(
                    GameStateV { taunts: g.taunts.push(message@), ..g },
                ),
                Err(e) => e matches GameError::DatabaseError { .. } && final(self).stored() == old(self).stored(),
            },
    {
        match self.store.load() {
            None => Err(GameError::GameNotFound),
            Some(mut s) => {
                let ghost g = s@;
                s.taunts.push(message);
                proof {
                    assert(s@ =~= GameStateV { taunts: g.taunts.push(message@), ..g });
                    lemma_taunt_preserves_wf(g, message@);
                }
                match self.store.save(&s) {
                    Ok(()) => Ok(()),
                    Err(e) => Err(GameError::DatabaseError { detail: e.detail }),
                }
            },
        }
    }
}

/// Relies on `std::sync::Mutex` only as an opaque container type, so that a
/// manager can be shared behind a lock; nothing is assumed about its
/// behaviour here. Callers lock it outside this crate.
#[verifier::external_type_specification]
#[verifier::external_body]
#[verifier::reject_recursive_types(T)]
pub struct ExMutex<T: ?Sized>(std::sync::Mutex<T>);

/// Shared application state for a server: the one game manager, behind a
/// lock that gives each caller exclusive access for a whole operation, so
/// no two operations interleave their read-modify-write sequences.
#[derive(Clone)]
pub struct AppState {
    pub game_manager: std::sync::Arc<
        std::sync::Mutex<GameManager<MemStore, FirstEmptyStrategy>>,
    >,
}

impl GameManager<MemStore, FirstEmptyStrategy> {
    /// A manager over the built-in in-memory backend and the built-in
    /// opponent. The in-memory engine keeps the record in this process and
    /// needs no location on disk; the path argument is accepted for
    /// interface compatibility with durable backends, which plug in
    /// through `with_parts` instead. Never fails.
    pub fn new(_db_path: &str) -> (r: Result<GameManager<MemStore, FirstEmptyStrategy>, GameError>)
        ensures
            r is Ok,
            (r matches Ok(m) ==> m.inv() && m.stored() is None),
    {
        Ok(GameManager { store: MemStore::new(), strategy: FirstEmptyStrategy, next_id: 1 })
    }
}

} // verus!
