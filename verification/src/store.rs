//! The persistence port: durable storage of the single active game record.
//! The manager writes through it after every mutation and reads through it
//! on every operation, so a crash after a successful answer never loses a
//! move. The built-in backend keeps the record in memory; a durable backend
//! plugs in by implementing `Store`.

use vstd::prelude::*;

use crate::state::GameState;
use crate::state::GameStateV;

verus! {

/// A failure of the storage backend, with a free-text description.
#[derive(Clone, PartialEq, Eq, Debug)]
pub struct StoreError {
    pub detail: String,
}

/// A slot holding the latest persisted state of the one active game.
///
/// `save` must be durable before it answers `Ok`, must leave the previous
/// record intact when it fails, and `load` must answer exactly what is
/// held: together these make a load after a successful save return a state
/// deep-equal to the one saved.
pub trait Store: Sized {
    /// The view of the record the store holds, if one was ever written.
    spec fn stored(&self) -> Option<GameStateV>;

    /// The last persisted state, or none if never written.
    fn load(&self) -> (r: Option<GameState>)
        ensures
            match r {
                Some(s) => self.stored() == Some(s@),
                None => self.stored() is None,
            },
    ;

    /// Overwrites the persisted record with `state`.
    fn save(&mut self, state: &GameState) -> (r: Result<(), StoreError>)
        ensures
            r is Ok ==> final(self).stored() == Some(state@),
            r is Err ==> final(self).stored() == old(self).stored(),
    ;
}

/// Round trip: a load made after a successful save of `saved` can only
/// answer a state deep-equal to `saved`. By the `Store` contracts the store
/// then holds `saved`, and a load answers exactly what is held.
pub proof fn lemma_save_load_round_trip<S: Store>(post: S, saved: GameStateV, loaded: GameStateV)
    requires
        post.stored() == Some(saved),
        post.stored() == Some(loaded),
    ensures
        loaded == saved,
{
}

/// The built-in in-memory backend: the record lives in this process and
/// does not survive a restart.
pub struct MemStore {
    slot: Option<GameState>,
}

impl MemStore {
    /// A store that holds no record yet.
    pub fn new() -> (r: MemStore)
        ensures
            r.stored() is None,
    {
        MemStore { slot: None }
    }
}

impl Store for MemStore {
    closed spec fn stored(&self) -> Option<GameStateV> {
        match self.slot {
            Some(s) => Some(s@),
            None => None,
        }
    }

    fn load(&self) -> (r: Option<GameState>) {
        match &self.slot {
            Some(s) => Some(s.snapshot()),
            None => None,
        }
    }

    fn save(&mut self, state: &GameState) -> (r: Result<(), StoreError>) {
        self.slot = Some(state.snapshot());
        Ok(())
    }
}

} // verus!
