//! The state of each conversation, kept in memory.

use crate::router::Effect;
use crate::state::State;
use std::collections::HashMap;
use vstd::prelude::*;

verus! {

/// Maps a conversation to its state. A conversation without an entry is `Paused`.
pub struct StateStore {
    entries: HashMap<i64, State>,
}

impl View for StateStore {
    type V = Map<i64, State>;

    closed spec fn view(&self) -> Map<i64, State> {
        self.entries@
    }
}

/// The state that a conversation reads as, given the stored entries.
pub open spec fn read(entries: Map<i64, State>, conversation: i64) -> State {
    if entries.contains_key(conversation) {
        entries[conversation]
    } else {
        State::Paused
    }
}

/// The entries after `effect` was applied to `conversation`.
pub open spec fn applied(entries: Map<i64, State>, conversation: i64, effect: Effect) -> Map<i64, State> {
    match effect {
        Effect::Keep => entries,
        Effect::Enter(state) => entries.insert(conversation, state),
        Effect::Exit => entries.remove(conversation),
    }
}

/// The part of a store split into `shards` parts that holds `conversation`.
///
/// A conversation always falls into the same part, so parts can be locked one by one and
/// two conversations in different parts never wait for each other.
pub open spec fn shard_spec(conversation: i64, shards: usize) -> int {
    let key: int = if conversation >= 0 {
        conversation as int
    } else {
        -(conversation + 1)
    };
    key % (shards as int)
}

/// The index of the part that holds `conversation`, of `shards` parts.
pub fn shard_of(conversation: i64, shards: usize) -> (shard: usize)
    requires
        shards > 0,
    ensures
        shard == shard_spec(conversation, shards),
        shard < shards,
{
    let key: u64 = if conversation >= 0 {
        conversation as u64
    } else {
        (-(conversation + 1)) as u64
    };
    (key % (shards as u64)) as usize
}

impl StateStore {
    /// A store in which every conversation is unseen.
    pub fn new() -> (store: Self)
        ensures
            store@ == Map::<i64, State>::empty(),
    {
        StateStore { entries: HashMap::new() }
    }

    /// The state of `conversation`: the stored one, or `Paused` where none is stored.
    pub fn get(&self, conversation: i64) -> (state: State)
        ensures
            state == read(self@, conversation),
            !self@.contains_key(conversation) ==> state == State::Paused,
    {
        broadcast use vstd::std_specs::hash::group_hash_axioms;

        match self.entries.get(&conversation) {
            Some(state) => *state,
            None => State::Paused,
        }
    }

    /// Stores `state` for `conversation`; no other conversation is touched.
    pub fn set(&mut self, conversation: i64, state: State)
        ensures
            final(self)@ == old(self)@.insert(conversation, state),
    {
        broadcast use vstd::std_specs::hash::group_hash_axioms;

        self.entries.insert(conversation, state);
    }

    /// Drops the entry of `conversation`, which reads as `Paused` from then on.
    pub fn exit(&mut self, conversation: i64)
        ensures
            final(self)@ == old(self)@.remove(conversation),
    {
        broadcast use vstd::std_specs::hash::group_hash_axioms;

        self.entries.remove(&conversation);
    }

    /// Applies what a routed command asks for.
    pub fn apply(&mut self, conversation: i64, effect: Effect)
        ensures
            final(self)@ == applied(old(self)@, conversation, effect),
    {
        match effect {
            Effect::Keep => {},
            Effect::Enter(state) => self.set(conversation, state),
            Effect::Exit => self.exit(conversation),
        }
    }
}

impl Default for StateStore {
    fn default() -> (store: Self)
        ensures
            store@ == Map::<i64, State>::empty(),
    {
        StateStore::new()
    }
}

/// Every conversation reads as `Paused` or `Working`. An unseen one reads as `Paused`, and so
/// does one that has ended.
pub proof fn law_unseen_reads_paused(entries: Map<i64, State>, conversation: i64)
    ensures
        read(entries, conversation) == State::Paused || read(entries, conversation) == State::Working,
        read(Map::<i64, State>::empty(), conversation) == State::Paused,
        !entries.contains_key(conversation) ==> read(entries, conversation) == State::Paused,
        read(entries.remove(conversation), conversation) == State::Paused,
{
}

/// A conversation reads as what was stored for it last, and storing or dropping one entry
/// leaves every other conversation as it was.
pub proof fn law_entries_independent(entries: Map<i64, State>, conversation: i64, other: i64, state: State)
    ensures
        read(entries.insert(conversation, state), conversation) == state,
        other != conversation ==> read(entries.insert(conversation, state), other) == read(entries, other),
        other != conversation ==> read(entries.remove(conversation), other) == read(entries, other),
{
}

/// Applying an effect to the store moves the conversation's state as the effect says, and
/// no other conversation's.
pub proof fn law_applied_reads(entries: Map<i64, State>, conversation: i64, other: i64, effect: Effect)
    ensures
        read(applied(entries, conversation, effect), conversation) == effect.apply_spec(
            read(entries, conversation),
        ),
        other != conversation ==> read(applied(entries, conversation, effect), other) == read(entries, other),
{
}

} // verus!
