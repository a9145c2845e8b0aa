use std::sync::Arc;
use std::sync::Mutex;

use tictactoe::board::Board;
use tictactoe::manager::AppState;
use tictactoe::manager::GameManager;
use tictactoe::player::Cell;
use tictactoe::player::Player;
use tictactoe::state::GameError;
use tictactoe::state::GameState;
use tictactoe::state::GameStatus;
use tictactoe::store::MemStore;
use tictactoe::store::Store;
use tictactoe::store::StoreError;
use tictactoe::strategy::FirstEmptyStrategy;
use tictactoe::strategy::Strategy;

#[test]
fn test_server_can_be_created() {
    // Just verify the server setup doesn't panic
    let _manager = GameManager::new(":memory:").expect("Failed to create manager");
}

fn occupied_count(board: &Board) -> usize {
    let mut n = 0;
    for row in 0..3 {
        for col in 0..3 {
            if board.get(row, col) != Cell::Empty {
                n += 1;
            }
        }
    }
    n
}

#[test]
fn get_or_create_is_idempotent() {
    let mut m = GameManager::new(":memory:").expect("manager");
    let a = m.get_or_create_game().expect("game");
    let b = m.get_or_create_game().expect("game");
    assert_eq!(a, b);
    assert_eq!(a.current_turn, Player::X);
    assert_eq!(a.human_player, Player::X);
    assert_eq!(a.status, GameStatus::InProgress);
    assert!(a.move_history.is_empty());
    assert!(a.taunts.is_empty());
    assert_eq!(occupied_count(&a.board), 0);
}

#[test]
fn first_move_scenario() {
    // Start a new game as X; make_move(0,0) places X, then the automated O
    // reply lands on the first empty cell, and the turn comes back to X.
    let mut m = GameManager::new(":memory:").expect("manager");
    m.get_or_create_game().expect("game");
    let s = m.make_move(0, 0).expect("move");
    assert_eq!(s.board.get(0, 0), Cell::Occupied(Player::X));
    assert_eq!(s.board.get(0, 1), Cell::Occupied(Player::O));
    assert_eq!(s.move_history.len(), 2);
    assert_eq!(s.status, GameStatus::InProgress);
    assert_eq!(s.current_turn, Player::X);

    // Repeating the same move fails and changes nothing.
    let e = m.make_move(0, 0).unwrap_err();
    assert_eq!(e, GameError::CellOccupied { row: 0, col: 0 });
    let again = m.get_or_create_game().expect("game");
    assert_eq!(again, s);
}

#[test]
fn turn_alternation_and_occupancy_hold_along_a_game() {
    let mut m = GameManager::new(":memory:").expect("manager");
    m.get_or_create_game().expect("game");
    let s1 = m.make_move(2, 2).expect("move");
    assert_eq!(occupied_count(&s1.board), s1.move_history.len());
    let s2 = m.make_move(2, 0).expect("move");
    assert_eq!(occupied_count(&s2.board), s2.move_history.len());
    for (n, mv) in s2.move_history.iter().enumerate() {
        let expected = if n % 2 == 0 { Player::X } else { Player::O };
        assert_eq!(mv.player, expected);
        if n + 1 < s2.move_history.len() {
            assert_eq!(s2.move_history[n + 1].player, mv.player.opponent());
        }
    }
}

#[test]
fn out_of_bounds_move_reported_first() {
    let mut m = GameManager::new(":memory:").expect("manager");
    m.get_or_create_game().expect("game");
    let e = m.make_move(5, 0).unwrap_err();
    assert_eq!(e, GameError::OutOfBounds { row: 5, col: 0 });
}

#[test]
fn move_before_any_game_is_not_found() {
    let mut m = GameManager::new(":memory:").expect("manager");
    let e = m.make_move(0, 0).unwrap_err();
    assert_eq!(e, GameError::GameNotFound);
}

#[test]
fn taunt_before_any_game_is_not_found() {
    // add_taunt("gg") before any game exists fails with GameNotFound.
    let mut m = GameManager::new(":memory:").expect("manager");
    let e = m.add_taunt("gg".to_string()).unwrap_err();
    assert_eq!(e, GameError::GameNotFound);
}

#[test]
fn taunts_append_in_order() {
    let mut m = GameManager::new(":memory:").expect("manager");
    m.get_or_create_game().expect("game");
    m.add_taunt("gg".to_string()).expect("taunt");
    m.add_taunt("rematch?".to_string()).expect("taunt");
    let s = m.get_or_create_game().expect("game");
    assert_eq!(s.taunts, vec!["gg".to_string(), "rematch?".to_string()]);
}

/// Drives the built-in first-empty opponent into completing the top row:
/// X plays far from it, O fills (0,0), (0,1), (0,2) and wins.
fn play_until_o_wins(m: &mut GameManager<MemStore, FirstEmptyStrategy>) -> GameState {
    m.get_or_create_game().expect("game");
    m.make_move(2, 2).expect("move");
    m.make_move(2, 0).expect("move");
    let s = m.make_move(1, 2).expect("move");
    assert_eq!(s.status, GameStatus::Won(Player::O));
    s
}

#[test]
fn terminal_game_rejects_further_moves_unchanged() {
    // Once the game is won, every further move fails and leaves the board,
    // history and status exactly as they were. With the earlier checks
    // passing (in bounds, X's turn, empty cell) the error is GameOver.
    let mut m = GameManager::new(":memory:").expect("manager");
    let s = play_until_o_wins(&mut m);
    assert_eq!(s.move_history.len(), 6);
    let e = m.make_move(1, 0).unwrap_err();
    assert_eq!(e, GameError::GameOver { status: GameStatus::Won(Player::O) });
    let after = m.get_or_create_game().expect("game");
    assert_eq!(after, s);
}

#[test]
fn terminal_game_after_human_win_rejects_moves() {
    // X completes the left column; the winning move is X's, so the recorded
    // turn has passed to O and a repeated human move trips the turn check
    // first. The state still never changes.
    let mut m = GameManager::new(":memory:").expect("manager");
    m.get_or_create_game().expect("game");
    m.make_move(0, 0).expect("move");
    m.make_move(1, 0).expect("move");
    let s = m.make_move(2, 0).expect("move");
    assert_eq!(s.status, GameStatus::Won(Player::X));
    assert_eq!(s.move_history.len(), 5);
    let e = m.make_move(1, 1).unwrap_err();
    assert_eq!(e, GameError::WrongTurn { expected: Player::O, actual: Player::X });
    let after = m.get_or_create_game().expect("game");
    assert_eq!(after, s);
}

#[test]
fn taunts_still_accepted_after_game_over() {
    let mut m = GameManager::new(":memory:").expect("manager");
    play_until_o_wins(&mut m);
    m.add_taunt("good game".to_string()).expect("taunt");
    let s = m.get_or_create_game().expect("game");
    assert_eq!(s.taunts, vec!["good game".to_string()]);
}

#[test]
fn restart_discards_the_old_game() {
    let mut m = GameManager::new(":memory:").expect("manager");
    let old = m.get_or_create_game().expect("game");
    m.make_move(0, 0).expect("move");
    let fresh = m.restart_game().expect("restart");
    assert_ne!(fresh.id, old.id);
    assert_eq!(occupied_count(&fresh.board), 0);
    assert!(fresh.move_history.is_empty());
    assert_eq!(fresh.status, GameStatus::InProgress);
    assert_eq!(fresh.current_turn, Player::X);
    let current = m.get_or_create_game().expect("game");
    assert_eq!(current, fresh);
}

/// A backend whose writes always fail, for exercising the database error
/// path.
struct FailingStore {
    slot: Option<GameState>,
}

impl Store for FailingStore {
    // Ghost-only trait item; its body is never run.
    fn stored(&self) -> Option<tictactoe::state::GameStateV> {
        None
    }

    fn load(&self) -> Option<GameState> {
        self.slot.as_ref().map(|s| s.snapshot())
    }

    fn save(&mut self, _state: &GameState) -> Result<(), StoreError> {
        Err(StoreError { detail: "write failed".to_string() })
    }
}

#[test]
fn save_failure_surfaces_as_database_error() {
    let mut seed = GameManager::new(":memory:").expect("manager");
    let base = seed.get_or_create_game().expect("game");
    let mut m = GameManager::with_parts(
        FailingStore { slot: Some(base.snapshot()) },
        FirstEmptyStrategy,
        7,
    );
    let e = m.make_move(0, 0).unwrap_err();
    assert!(matches!(e, GameError::DatabaseError { .. }));
    // The persisted record was never touched.
    let after = m.get_or_create_game().expect("game");
    assert_eq!(after, base);

    let e2 = m.restart_game().unwrap_err();
    assert!(matches!(e2, GameError::DatabaseError { .. }));
    let e3 = m.add_taunt("gg".to_string()).unwrap_err();
    assert!(matches!(e3, GameError::DatabaseError { .. }));
}

/// An opponent that always proposes the same cell, legal or not.
struct StubbornStrategy;

impl Strategy for StubbornStrategy {
    fn next_move(&mut self, _board: &Board, _player: Player) -> (usize, usize) {
        (1, 1)
    }
}

#[test]
fn illegal_strategy_reply_is_an_internal_error() {
    let mut m = GameManager::with_parts(MemStore::new(), StubbornStrategy, 1);
    let before = m.get_or_create_game().expect("game");
    // The human takes (1,1); the strategy then proposes the occupied (1,1),
    // which the manager rejects as a contract violation and applies nothing.
    let e = m.make_move(1, 1).unwrap_err();
    assert!(matches!(e, GameError::InternalError { .. }));
    let after = m.get_or_create_game().expect("game");
    assert_eq!(after, before);
    assert!(after.move_history.is_empty());
}

#[test]
fn app_state_shares_one_manager_between_clones() {
    let manager = GameManager::new(":memory:").expect("manager");
    let state = AppState { game_manager: Arc::new(Mutex::new(manager)) };
    let handle = state.clone();
    let created = state.game_manager.lock().unwrap().get_or_create_game().expect("game");
    let seen = handle.game_manager.lock().unwrap().get_or_create_game().expect("game");
    assert_eq!(created, seen);
}

#[test]
fn legal_stubborn_reply_is_applied() {
    let mut m = GameManager::with_parts(MemStore::new(), StubbornStrategy, 1);
    m.get_or_create_game().expect("game");
    let s = m.make_move(0, 0).expect("move");
    assert_eq!(s.board.get(1, 1), Cell::Occupied(Player::O));
    assert_eq!(s.move_history.len(), 2);
}
