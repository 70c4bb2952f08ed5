//! The handle registry: entries by id, each released at most once.
use std::collections::HashMap;
use vstd::prelude::*;

use crate::error::BridgeError;
use crate::handle::DartCallback;
use crate::model::HandleTable;

verus! {

broadcast use vstd::std_specs::hash::group_hash_axioms;

/// The entries that are held on behalf of the managed side, by handle id.
///
/// Ids count up from 1 and are never issued twice, so an id that was
/// released stays recognisable as released for as long as the registry
/// lives.
pub struct HandleRegistry {
    next: u64,
    entries: HashMap<u64, DartCallback>,
}

impl View for HandleRegistry {
    type V = HandleTable;

    closed spec fn view(&self) -> HandleTable {
        HandleTable {
            next: self.next,
            live: Map::new(
                |id: u64| self.entries@.contains_key(id),
                |id: u64| self.entries@[id]@,
            ),
        }
    }
}

impl HandleRegistry {
    /// A registry that holds no entry.
    pub fn new() -> (registry: Self)
        ensures
            registry@.wf(),
            registry@ == HandleTable::empty(),
    {
        let registry = HandleRegistry { next: 1, entries: HashMap::new() };
        assert(registry@.live =~= Map::<u64, usize>::empty());
        registry
    }

    /// Whether one more id can be issued.
    pub fn has_room(&self) -> (room: bool)
        ensures
            room == self@.has_room(),
    {
        self.next < u64::MAX
    }

    /// Takes `entry` in and answers with its new id.
    pub fn register(&mut self, entry: DartCallback) -> (id: u64)
        requires
            old(self)@.wf(),
            old(self)@.has_room(),
        ensures
            final(self)@.wf(),
            final(self)@ == old(self)@.register(entry@),
            id == old(self)@.next,
    {
        let id = self.next;
        let ghost persistent = entry@;
        self.next = id + 1;
        self.entries.insert(id, entry);
        proof {
            assert(self@.live =~= old(self)@.live.insert(id, persistent));
            old(self)@.lemma_register_wf(persistent);
        }
        id
    }

    /// The entry behind `id`, or why there is none.
    pub fn lookup(&self, id: u64) -> (found: Result<&DartCallback, BridgeError>)
        requires
            self@.wf(),
        ensures
            match found {
                Ok(entry) => self@.lookup(id) == Ok::<usize, BridgeError>(entry@),
                Err(e) => self@.lookup(id) == Err::<usize, BridgeError>(e),
            },
    {
        if id == 0 || id >= self.next {
            return Err(BridgeError::UnknownHandle);
        }
        match self.entries.get(&id) {
            Some(entry) => Ok(entry),
            None => Err(BridgeError::ReleasedHandle),
        }
    }

    /// Takes the entry behind `id` out of the registry. From then on the
    /// id counts as released.
    pub fn release(&mut self, id: u64) -> (taken: Result<DartCallback, BridgeError>)
        requires
            old(self)@.wf(),
        ensures
            final(self)@.wf(),
            final(self)@ == old(self)@.release(id),
            match taken {
                Ok(entry) => old(self)@.lookup(id) == Ok::<usize, BridgeError>(entry@),
                Err(e) => old(self)@.lookup(id) == Err::<usize, BridgeError>(e),
            },
    {
        proof {
            old(self)@.lemma_release_wf(id);
        }
        if id == 0 || id >= self.next {
            return Err(BridgeError::UnknownHandle);
        }
        let removed = self.entries.remove(&id);
        assert(self@.live =~= old(self)@.live.remove(id));
        match removed {
            Some(entry) => Ok(entry),
            None => Err(BridgeError::ReleasedHandle),
        }
    }
}

} // verus!
