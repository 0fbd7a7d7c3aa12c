//! Containers that keep things under handles.

use vstd::prelude::*;
use crate::handle::Handle;

verus! {

/// A thing under its handle.
pub struct Entry<T> {
    pub handle: Handle,
    pub value: T,
}

/// Things under the handles that the host gave them, in the order in
/// which they were added. A handle names the first entry that carries
/// it.
pub struct Container<T> {
    pub entries: Vec<Entry<T>>,
}

/// The handles of a sequence of entries, in order.
pub open spec fn handles_of<T>(entries: Seq<Entry<T>>) -> Seq<Handle> {
    Seq::new(entries.len(), |i: int| entries[i].handle)
}

impl<T> Container<T> {
    pub open spec fn handles(&self) -> Seq<Handle> {
        handles_of(self.entries@)
    }

    /// Where the thing of a handle is kept.
    pub open spec fn index_of(&self, handle: Handle) -> Option<int> {
        self.handles().index_of_first(handle)
    }

    pub open spec fn spec_contains(&self, handle: Handle) -> bool {
        self.handles().contains(handle)
    }

    pub fn new() -> (r: Container<T>)
        ensures
            r.entries@.len() == 0,
    {
        Container { entries: Vec::new() }
    }

    /// Where the thing of a handle is kept: the first entry under that
    /// handle, if there is one.
    pub fn find(&self, handle: Handle) -> (r: Option<usize>)
        ensures
            (r is Some) == self.spec_contains(handle),
            r matches Some(i) ==> i < self.entries@.len() && self.index_of(handle) == Some(
                i as int,
            ) && self.entries@[i as int].handle == handle,
            r is None ==> self.index_of(handle) is None,
    {
        let mut i: usize = 0;
        while i < self.entries.len()
            invariant
                i <= self.entries@.len(),
                forall|j: int| 0 <= j < i ==> self.handles()[j] != handle,
            decreases self.entries@.len() - i,
        {
            if self.entries[i].handle == handle {
                proof {
                    assert(self.handles()[i as int] == handle);
                    self.handles().index_of_first_ensures(handle);
                }
                return Some(i);
            }
            i += 1;
        }
        proof {
            self.handles().index_of_first_ensures(handle);
        }
        None
    }

    pub fn contains(&self, handle: Handle) -> (r: bool)
        ensures
            r == self.spec_contains(handle),
    {
        self.find(handle).is_some()
    }

    /// The thing of a handle.
    pub fn get(&self, handle: Handle) -> (r: Option<&T>)
        ensures
            (r is Some) == self.spec_contains(handle),
            r matches Some(value) ==> self.index_of(handle) matches Some(i) && *value
                == self.entries@[i].value,
            r is None ==> self.index_of(handle) is None,
    {
        match self.find(handle) {
            Some(i) => Some(&self.entries[i].value),
            None => None,
        }
    }

    /// Puts a thing under a handle, after all others.
    pub fn add(&mut self, handle: Handle, value: T)
        ensures
            final(self).entries@ == old(self).entries@.push(Entry { handle, value }),
    {
        self.entries.push(Entry { handle, value });
    }

    /// Takes the thing of a handle out of the container.
    pub fn free(&mut self, handle: Handle) -> (r: Option<T>)
        ensures
            (r is Some) == old(self).spec_contains(handle),
            match old(self).index_of(handle) {
                Some(i) => r == Some(old(self).entries@[i].value) && final(self).entries@ == old(
                    self,
                ).entries@.remove(i),
                None => final(self).entries@ == old(self).entries@,
            },
    {
        match self.find(handle) {
            Some(i) => {
                let entry = self.entries.remove(i);
                Some(entry.value)
            },
            None => None,
        }
    }
}

} // verus!
