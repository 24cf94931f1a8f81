//! Per-conversation dialogue state, kept in memory.
use vstd::prelude::*;
use std::collections::HashMap;
use crate::model::State;

verus! {

broadcast use vstd::std_specs::hash::group_hash_axioms;

/// The state of conversation `id` in `m`: `Start` when none is stored.
pub open spec fn stored_state(m: Map<i64, State>, id: i64) -> State {
    if m.contains_key(id) {
        m[id]
    } else {
        State::Start
    }
}

/// `m` after storing `next` for conversation `id` (`None`: no change).
pub open spec fn committed(m: Map<i64, State>, id: i64, next: Option<State>) -> Map<i64, State> {
    match next {
        Some(s) => m.insert(id, s),
        None => m,
    }
}

/// The dialogue state of each conversation, keyed by its identity.
pub struct SessionStore {
    states: HashMap<i64, State>,
}

impl View for SessionStore {
    type V = Map<i64, State>;

    closed spec fn view(&self) -> Map<i64, State> {
        self.states@
    }
}

impl SessionStore {
    /// A store that holds no conversation.
    pub fn new() -> (r: SessionStore)
        ensures
            r@ == Map::<i64, State>::empty(),
    {
        SessionStore { states: HashMap::new() }
    }

    /// The state of conversation `id`; `Start` if none is stored.
    pub fn get(&self, id: i64) -> (r: State)
        ensures
            r == stored_state(self@, id),
    {
        match self.states.get(&id) {
            Some(s) => s.duplicate(),
            None => State::Start,
        }
    }

    /// Stores `state` for conversation `id`.
    pub fn set(&mut self, id: i64, state: State)
        ensures
            final(self)@ == old(self)@.insert(id, state),
    {
        self.states.insert(id, state);
    }

    /// Stores the state that a reply asks for, if any.
    pub fn commit(&mut self, id: i64, next: Option<State>)
        ensures
            final(self)@ == committed(old(self)@, id, next),
    {
        match next {
            Some(s) => self.set(id, s),
            None => {},
        }
    }
}

} // verus!
