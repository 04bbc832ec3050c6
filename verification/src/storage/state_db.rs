use vstd::prelude::*;
use crate::bytes_util::{clone_bytes, zero_bytes};

verus! {

/// A writable view of the state database scoped to one phase step at one
/// height. Changes live here until the step commits or discards them.
#[derive(Debug)]
pub struct StateDbUnitOfWork {
    pub height: u64,
    pub state_root: Vec<u8>,
    pub updates: Vec<(Vec<u8>, Vec<u8>)>,
}

impl StateDbUnitOfWork {
    pub fn new(height: u64, state_root: Vec<u8>) -> (r: StateDbUnitOfWork)
        ensures
            r.height == height,
            r.state_root@ == state_root@,
            r.updates@.len() == 0,
    {
        StateDbUnitOfWork { height, state_root, updates: Vec::new() }
    }

    /// Records one key/value write.
    pub fn set_value(&mut self, key: Vec<u8>, value: Vec<u8>)
        ensures
            final(self).updates@.len() == old(self).updates@.len() + 1,
            final(self).updates@.last().0@ == key@,
            final(self).updates@.last().1@ == value@,
            forall|i: int|
                0 <= i < old(self).updates@.len() ==> final(self).updates@[i]
                    == old(self).updates@[i],
            final(self).state_root@ == old(self).state_root@,
            final(self).height == old(self).height,
    {
        self.updates.push((key, value));
    }

    /// Replaces the running state-root commitment.
    pub fn set_state_root(&mut self, root: Vec<u8>)
        ensures
            final(self).state_root@ == root@,
            final(self).updates@ == old(self).updates@,
            final(self).height == old(self).height,
    {
        self.state_root = root;
    }

    pub fn state_root(&self) -> (r: &Vec<u8>)
        ensures
            r@ == self.state_root@,
    {
        &self.state_root
    }

    /// A fresh unit of work with the same content.
    pub fn duplicate(&self) -> (r: StateDbUnitOfWork)
        ensures
            r.height == self.height,
            r.state_root@ == self.state_root@,
            r.updates@.len() == self.updates@.len(),
            forall|i: int|
                0 <= i < self.updates@.len() ==> (r.updates@[i].0@ == self.updates@[i].0@
                    && r.updates@[i].1@ == self.updates@[i].1@),
    {
        let mut updates: Vec<(Vec<u8>, Vec<u8>)> = Vec::new();
        let mut i: usize = 0;
        while i < self.updates.len()
            invariant
                i <= self.updates@.len(),
                updates@.len() == i,
                forall|j: int|
                    0 <= j < i ==> (updates@[j].0@ == self.updates@[j].0@ && updates@[j].1@
                        == self.updates@[j].1@),
            decreases self.updates@.len() - i,
        {
            let key = clone_bytes(&self.updates[i].0);
            let value = clone_bytes(&self.updates[i].1);
            updates.push((key, value));
            i = i + 1;
        }
        StateDbUnitOfWork {
            height: self.height,
            state_root: clone_bytes(&self.state_root),
            updates,
        }
    }
}

/// The state database: the committed root and key/value content that units
/// of work branch from.
#[derive(Debug)]
pub struct StateDb {
    pub committed_root: Vec<u8>,
    pub committed: Vec<(Vec<u8>, Vec<u8>)>,
}

impl StateDb {
    /// An empty database whose root is the all-zero commitment.
    pub fn new() -> (r: StateDb)
        ensures
            r.committed_root@.len() == 32,
            forall|j: int| 0 <= j < 32 ==> r.committed_root@[j] == 0u8,
            r.committed@.len() == 0,
    {
        StateDb { committed_root: zero_bytes(32), committed: Vec::new() }
    }

    /// A fresh writable unit of work at the given height, branching from the
    /// committed state.
    pub fn new_unit_of_work(&self, height: u64) -> (r: StateDbUnitOfWork)
        ensures
            r.height == height,
            r.state_root@ == self.committed_root@,
            r.updates@.len() == 0,
    {
        StateDbUnitOfWork::new(height, clone_bytes(&self.committed_root))
    }

    /// A read-only view of the committed state.
    pub fn reader(&self) -> (r: StateDbUnitOfWork)
        ensures
            r.state_root@ == self.committed_root@,
            r.updates@.len() == 0,
    {
        StateDbUnitOfWork::new(0, clone_bytes(&self.committed_root))
    }

    /// Applies a finished unit of work atomically.
    pub fn commit(&mut self, unit_of_work: StateDbUnitOfWork)
        ensures
            final(self).committed_root@ == unit_of_work.state_root@,
            final(self).committed@.len() == old(self).committed@.len()
                + unit_of_work.updates@.len(),
    {
        let StateDbUnitOfWork { height: _, state_root, updates } = unit_of_work;
        self.committed_root = state_root;
        let ghost pre = self.committed@;
        let mut i: usize = 0;
        while i < updates.len()
            invariant
                i <= updates@.len(),
                self.committed@.len() == pre.len() + i,
                self.committed_root@ == unit_of_work.state_root@,
                updates@.len() == unit_of_work.updates@.len(),
            decreases updates@.len() - i,
        {
            let pair = (clone_bytes(&updates[i].0), clone_bytes(&updates[i].1));
            self.committed.push(pair);
            i = i + 1;
        }
    }
}

} // verus!
