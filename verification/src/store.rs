//! Values under handles.

use vstd::prelude::*;

verus! {

/// Values of one kind, each under the handle that `insert` gave for it. A
/// handle is given out once: when its value was removed it stands for
/// nothing, and never comes to stand for another value.
pub struct Store<T> {
    slots: Vec<Option<T>>,
}

impl<T> View for Store<T> {
    type V = Map<u64, T>;

    /// The values that are in the store, by their handles.
    closed spec fn view(&self) -> Map<u64, T> {
        Map::new(
            |id: u64| id < self.slots@.len() && self.slots@[id as int] is Some,
            |id: u64| self.slots@[id as int]->Some_0,
        )
    }
}

impl<T> Store<T> {
    /// The number of handles given out so far. They are the numbers below
    /// it, and the next one is this number.
    pub closed spec fn issued(&self) -> nat {
        self.slots@.len()
    }

    /// The store that holds nothing and has given out no handle.
    pub fn new() -> (store: Store<T>)
        ensures
            store@ == Map::<u64, T>::empty(),
            store.issued() == 0,
    {
        let store = Store { slots: Vec::new() };
        assert(store@ =~= Map::<u64, T>::empty());
        store
    }

    /// Puts `value` into the store, under a handle that was never given out
    /// before.
    pub fn insert(&mut self, value: T) -> (id: u64)
        ensures
            id == old(self).issued(),
            final(self).issued() == old(self).issued() + 1,
            final(self)@ == old(self)@.insert(id, value),
    {
        let id = self.slots.len() as u64;
        self.slots.push(Some(value));
        assert(self@ =~= old(self)@.insert(id, value));
        id
    }

    /// Whether a value stands under `id`.
    pub fn contains(&self, id: u64) -> (live: bool)
        ensures
            live == self@.dom().contains(id),
    {
        if id < self.slots.len() as u64 {
            self.slots[id as usize].is_some()
        } else {
            false
        }
    }

    /// The value under `id`, if there is one.
    pub fn get(&self, id: u64) -> (value: Option<&T>)
        ensures
            self@.dom().contains(id) ==> value == Some(&self@[id]),
            !self@.dom().contains(id) ==> value is None,
    {
        if id < self.slots.len() as u64 {
            self.slots[id as usize].as_ref()
        } else {
            None
        }
    }

    /// Takes the value under `id` out of the store, if there is one. The
    /// handle stands for nothing from then on.
    pub fn remove(&mut self, id: u64) -> (value: Option<T>)
        ensures
            final(self)@ == old(self)@.remove(id),
            final(self).issued() == old(self).issued(),
            old(self)@.dom().contains(id) ==> value == Some(old(self)@[id]),
            !old(self)@.dom().contains(id) ==> value is None,
    {
        if id < self.slots.len() as u64 {
            let value = self.slots[id as usize].take();
            assert(self@ =~= old(self)@.remove(id));
            value
        } else {
            assert(self@ =~= old(self)@.remove(id));
            None
        }
    }

    /// Every handle that stands for a value was given out.
    pub proof fn lemma_live_handles_were_issued(&self)
        ensures
            forall|id: u64| self@.dom().contains(id) ==> id < self.issued(),
    {
    }
}

/// A handle whose value was removed is not given out again: whatever is put
/// into the store afterwards gets another handle, and the removed handle
/// still stands for nothing.
pub proof fn lemma_removed_handle_stays_free<T>(
    before: Store<T>,
    removed: Store<T>,
    after: Store<T>,
    id: u64,
    next: u64,
    value: T,
)
    requires
        before@.dom().contains(id),
        removed@ == before@.remove(id),
        removed.issued() == before.issued(),
        next == removed.issued(),
        after@ == removed@.insert(next, value),
    ensures
        next != id,
        !after@.dom().contains(id),
{
    before.lemma_live_handles_were_issued();
}

} // verus!
