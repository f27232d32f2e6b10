//! A table of live resources under integer handles that a counter hands out.

use std::collections::HashMap;
use vstd::prelude::*;
use vstd::std_specs::hash::*;

verus! {

broadcast use vstd::std_specs::hash::group_hash_axioms;

/// A table from handles to values, with the counter that gives the next
/// handle. Handles count up from zero and are never handed out twice.
pub struct HandleTable<V> {
    entries: HashMap<u32, V>,
    next: u32,
}

/// A table as a mathematical value.
pub ghost struct TableView<V> {
    /// The live handles, each with its value.
    pub entries: Map<u32, V>,
    /// The handle that is handed out next.
    pub next: u32,
}

impl<V> TableView<V> {
    /// Every live handle was handed out: it lies below the counter.
    pub open spec fn wf(self) -> bool {
        forall|handle: u32| self.entries.contains_key(handle) ==> handle < self.next
    }
}

impl<V> View for HandleTable<V> {
    type V = TableView<V>;

    closed spec fn view(&self) -> TableView<V> {
        TableView { entries: self.entries@, next: self.next }
    }
}

impl<V> HandleTable<V> {
    /// Whether the table is well formed: see `TableView::wf`.
    pub open spec fn wf(&self) -> bool {
        self@.wf()
    }

    /// An empty table whose first handle is zero.
    pub fn new() -> (table: HandleTable<V>)
        ensures
            table.wf(),
            table@.entries == Map::<u32, V>::empty(),
            table@.next == 0,
    {
        HandleTable { entries: HashMap::new(), next: 0 }
    }

    /// Whether a handle is left to hand out.
    pub fn can_allocate(&self) -> (left: bool)
        ensures
            left == (self@.next < u32::MAX),
    {
        self.next < u32::MAX
    }

    /// Hands out the next handle and moves the counter on. The handle is
    /// not live yet.
    pub fn allocate(&mut self) -> (handle: u32)
        requires
            old(self).wf(),
            old(self)@.next < u32::MAX,
        ensures
            final(self).wf(),
            handle == old(self)@.next,
            !final(self)@.entries.contains_key(handle),
            final(self)@.entries == old(self)@.entries,
            final(self)@.next == old(self)@.next + 1,
    {
        let handle: u32 = self.next;
        self.next = self.next + 1;
        assert(!old(self)@.entries.contains_key(handle));
        handle
    }

    /// Puts `value` under `handle`, which was handed out before, in place of
    /// what the handle held if it was live.
    pub fn insert(&mut self, handle: u32, value: V)
        requires
            old(self).wf(),
            handle < old(self)@.next,
        ensures
            final(self).wf(),
            final(self)@.entries == old(self)@.entries.insert(handle, value),
            final(self)@.next == old(self)@.next,
    {
        self.entries.insert(handle, value);
        assert forall|live: u32| self@.entries.contains_key(live) implies live < self@.next by {
            if live != handle {
                assert(old(self)@.entries.contains_key(live));
            }
        }
    }

    /// Whether `handle` is live.
    pub fn contains(&self, handle: u32) -> (live: bool)
        ensures
            live == self@.entries.contains_key(handle),
    {
        self.entries.contains_key(&handle)
    }

    /// The value under the live handle `handle`.
    pub fn get(&self, handle: u32) -> (value: &V)
        requires
            self@.entries.contains_key(handle),
        ensures
            *value == self@.entries[handle],
    {
        self.entries.get(&handle).unwrap()
    }

    /// Takes the live handle `handle` out of the table and returns what it
    /// held. The counter stays, so the handle is not handed out again.
    pub fn remove(&mut self, handle: u32) -> (value: V)
        requires
            old(self).wf(),
            old(self)@.entries.contains_key(handle),
        ensures
            final(self).wf(),
            value == old(self)@.entries[handle],
            final(self)@.entries == old(self)@.entries.remove(handle),
            final(self)@.next == old(self)@.next,
    {
        self.entries.remove(&handle).unwrap()
    }
}

} // verus!
