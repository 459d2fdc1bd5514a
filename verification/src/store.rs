//! The session store: a mapping from session key (the identifier of the
//! message that hosts a duel's controls) to that duel's state.
//!
//! The store itself is single-threaded; callers that handle events
//! concurrently put the whole store behind one lock and run the complete
//! get-compute-replace cycle for an event inside it, so that per-key updates
//! never interleave.

use vstd::prelude::*;

use crate::duel::DuelState;

verus! {

broadcast use vstd::std_specs::hash::group_hash_axioms;

/// Holds at most one duel per session key. Every stored duel is well-formed
/// and never `Finished`: a duel that finishes is removed in the same update
/// that declares the winner.
pub struct SessionStore {
    sessions: std::collections::HashMap<u64, DuelState>,
}

impl View for SessionStore {
    type V = Map<u64, DuelState>;

    closed spec fn view(&self) -> Map<u64, DuelState> {
        self.sessions@
    }
}

impl SessionStore {
    /// Every stored duel is well-formed and not `Finished`.
    pub open spec fn wf(self) -> bool {
        forall|k: u64| #[trigger]
            self@.contains_key(k) ==> self@[k].wf() && !(self@[k].phase is Finished)
    }

    /// An empty store.
    pub fn new() -> (r: SessionStore)
        ensures
            r@ == Map::<u64, DuelState>::empty(),
            r.wf(),
    {
        SessionStore { sessions: std::collections::HashMap::new() }
    }

    /// Non-destructive read of the duel under `key`, if any.
    pub fn get(&self, key: u64) -> (r: Option<DuelState>)
        ensures
            r == if self@.contains_key(key) {
                Some(self@[key])
            } else {
                None::<DuelState>
            },
    {
        match self.sessions.get(&key) {
            Some(state) => Some(*state),
            None => None,
        }
    }

    /// How many duels the store holds.
    pub fn len(&self) -> (r: usize)
        ensures
            r == self@.len(),
    {
        self.sessions.len()
    }

    /// Store a fresh duel under a fresh session key. Fails, changing
    /// nothing, when the key is already taken: an invitation always targets
    /// the key of its own, newly created message.
    pub fn insert(&mut self, key: u64, state: DuelState) -> (ok: bool)
        requires
            old(self).wf(),
            state.wf(),
            !(state.phase is Finished),
        ensures
            final(self).wf(),
            ok == !old(self)@.contains_key(key),
            ok ==> final(self)@ == old(self)@.insert(key, state),
            !ok ==> final(self)@ == old(self)@,
    {
        if self.sessions.contains_key(&key) {
            false
        } else {
            self.sessions.insert(key, state);
            true
        }
    }

    /// Overwrite the duel under an existing key. Fails, changing nothing,
    /// when the key is absent.
    pub fn replace(&mut self, key: u64, state: DuelState) -> (ok: bool)
        requires
            old(self).wf(),
            state.wf(),
            !(state.phase is Finished),
        ensures
            final(self).wf(),
            ok == old(self)@.contains_key(key),
            ok ==> final(self)@ == old(self)@.insert(key, state),
            !ok ==> final(self)@ == old(self)@,
    {
        if self.sessions.contains_key(&key) {
            self.sessions.insert(key, state);
            true
        } else {
            false
        }
    }

    /// Drop the duel under `key`, if any.
    pub fn remove(&mut self, key: u64)
        requires
            old(self).wf(),
        ensures
            final(self).wf(),
            final(self)@ == old(self)@.remove(key),
    {
        self.sessions.remove(&key);
    }
}

/// No observer ever reads a `Finished` duel out of a well-formed store: what
/// `get` returns under any present key is not `Finished`.
pub proof fn lemma_no_finished_observed(store: SessionStore, key: u64)
    requires
        store.wf(),
        store@.contains_key(key),
    ensures
        !(store@[key].phase is Finished),
        store@[key].wf(),
{
}

} // verus!
