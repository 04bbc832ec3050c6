use vstd::prelude::*;
use crate::bytes_util::eq_bytes;
use crate::errors::DigitalAssetError;
use crate::models::shard::Shard;
use crate::models::tree_node_hash::TreeNodeHash;

verus! {

/// True when `s` holds an entry for shard id `id`.
pub open spec fn entries_contain(s: Seq<(u64, Seq<u8>)>, id: u64) -> bool {
    exists|i: int| 0 <= i < s.len() && s[i].0 == id
}

/// The hash recorded for shard id `id` (meaningful only when present).
pub open spec fn entries_value(s: Seq<(u64, Seq<u8>)>, id: u64) -> Seq<u8> {
    let i = choose|i: int| 0 <= i < s.len() && s[i].0 == id;
    s[i].1
}

/// Entries are strictly sorted by shard id.
pub open spec fn entries_sorted(s: Seq<(u64, Seq<u8>)>) -> bool {
    forall|i: int, j: int| 0 <= i < j < s.len() ==> s[i].0 < s[j].0
}

/// In a sorted entry sequence an id occurs at most once, so the value found
/// at any matching index is `entries_value`.
pub proof fn lemma_sorted_entries_unique(s: Seq<(u64, Seq<u8>)>, i: int)
    requires
        entries_sorted(s),
        0 <= i < s.len(),
    ensures
        forall|j: int| 0 <= j < s.len() && s[j].0 == s[i].0 ==> j == i,
        entries_contain(s, s[i].0),
        entries_value(s, s[i].0) == s[i].1,
{
    assert forall|j: int| 0 <= j < s.len() && s[j].0 == s[i].0 implies j == i by {
        if j < i {
            assert(s[j].0 < s[i].0);
        }
        if i < j {
            assert(s[i].0 < s[j].0);
        }
    }
}

/// A map from shard to tree-node hash, kept strictly sorted by shard id so
/// that replicas walk it in one canonical order.
#[derive(Clone, Debug)]
pub struct ShardHashMap {
    entries: Vec<(Shard, TreeNodeHash)>,
}

impl View for ShardHashMap {
    type V = Seq<(u64, Seq<u8>)>;

    closed spec fn view(&self) -> Seq<(u64, Seq<u8>)> {
        self.entries@.map(|i: int, e: (Shard, TreeNodeHash)| (e.0.id, e.1@))
    }
}

impl ShardHashMap {
    pub open spec fn well_formed(&self) -> bool {
        entries_sorted(self@)
    }

    pub fn new() -> (r: ShardHashMap)
        ensures
            r@ == Seq::<(u64, Seq<u8>)>::empty(),
            r.well_formed(),
    {
        let r = ShardHashMap { entries: Vec::new() };
        proof {
            assert(r@ =~= Seq::<(u64, Seq<u8>)>::empty());
        }
        r
    }

    pub fn len(&self) -> (r: usize)
        ensures
            r == self@.len(),
    {
        self.entries.len()
    }

    pub fn shard_at(&self, i: usize) -> (r: Shard)
        requires
            i < self@.len(),
        ensures
            r.id == self@[i as int].0,
    {
        self.entries[i].0
    }

    pub fn hash_at(&self, i: usize) -> (r: &TreeNodeHash)
        requires
            i < self@.len(),
        ensures
            r@ == self@[i as int].1,
    {
        &self.entries[i].1
    }

    /// In a sorted entry sequence an id occurs at most once, so the value
    /// found at any matching index is `entries_value`.
    proof fn lemma_sorted_unique(&self, i: int)
        requires
            self.well_formed(),
            0 <= i < self@.len(),
        ensures
            forall|j: int| 0 <= j < self@.len() && self@[j].0 == self@[i].0 ==> j == i,
            entries_value(self@, self@[i].0) == self@[i].1,
            entries_contain(self@, self@[i].0),
    {
        assert forall|j: int| 0 <= j < self@.len() && self@[j].0 == self@[i].0 implies j == i by {
            if j < i {
                assert(self@[j].0 < self@[i].0);
            }
            if i < j {
                assert(self@[i].0 < self@[j].0);
            }
        }
    }

    /// Looks a shard up.
    pub fn get(&self, shard: Shard) -> (r: Option<&TreeNodeHash>)
        requires
            self.well_formed(),
        ensures
            r is Some <==> entries_contain(self@, shard.id),
            r matches Some(h) ==> h@ == entries_value(self@, shard.id),
    {
        let mut i: usize = 0;
        while i < self.entries.len()
            invariant
                i <= self@.len(),
                self.well_formed(),
                forall|j: int| 0 <= j < i ==> self@[j].0 != shard.id,
            decreases self@.len() - i,
        {
            if self.entries[i].0.id == shard.id {
                proof {
                    self.lemma_sorted_unique(i as int);
                }
                return Some(&self.entries[i].1);
            }
            i = i + 1;
        }
        proof {
            assert(!entries_contain(self@, shard.id));
        }
        None
    }

    /// Records `hash` for `shard`. A second, different hash for a shard that
    /// is already present is refused, never merged; recording the identical
    /// hash again changes nothing.
    pub fn insert(&mut self, shard: Shard, hash: TreeNodeHash) -> (r: Result<
        (),
        DigitalAssetError,
    >)
        requires
            old(self).well_formed(),
        ensures
            final(self).well_formed(),
            r is Ok <==> (!entries_contain(old(self)@, shard.id) || entries_value(
                old(self)@,
                shard.id,
            ) == hash@),
            r is Err ==> final(self)@ == old(self)@ && r == Result::<(), DigitalAssetError>::Err(
                DigitalAssetError::ConflictingVoteForShard,
            ),
            r is Ok ==> entries_contain(final(self)@, shard.id) && entries_value(
                final(self)@,
                shard.id,
            ) == hash@,
            r is Ok ==> forall|id: u64|
                id != shard.id ==> (entries_contain(final(self)@, id) == entries_contain(
                    old(self)@,
                    id,
                ) && (entries_contain(old(self)@, id) ==> entries_value(final(self)@, id)
                    == entries_value(old(self)@, id))),
            r is Ok && entries_contain(old(self)@, shard.id) ==> final(self)@ == old(self)@,
            r is Ok && !entries_contain(old(self)@, shard.id) ==> final(self)@.len() == old(
                self,
            )@.len() + 1,
    {
        let ghost pre = self@;
        let mut i: usize = 0;
        while i < self.entries.len() && self.entries[i].0.id < shard.id
            invariant
                i <= self@.len(),
                self.well_formed(),
                self@ == pre,
                forall|j: int| 0 <= j < i ==> self@[j].0 < shard.id,
            decreases self@.len() - i,
        {
            i = i + 1;
        }
        if i < self.entries.len() && self.entries[i].0.id == shard.id {
            proof {
                self.lemma_sorted_unique(i as int);
            }
            if eq_bytes(&self.entries[i].1.0, &hash.0) {
                return Ok(());
            }
            return Err(DigitalAssetError::ConflictingVoteForShard);
        }
        proof {
            assert(forall|j: int| i <= j < pre.len() ==> pre[j].0 > shard.id) by {
                assert forall|j: int| i <= j < pre.len() implies pre[j].0 > shard.id by {
                    if i < pre.len() {
                        assert(pre[i as int].0 > shard.id || pre[i as int].0 == shard.id
                            || pre[i as int].0 < shard.id);
                    }
                }
            }
            assert(!entries_contain(pre, shard.id));
        }
        self.entries.insert(i, (shard, hash));
        proof {
            assert(self@ =~= pre.insert(i as int, (shard.id, hash@)));
            assert(entries_sorted(self@));
            assert(self@[i as int].0 == shard.id);
            self.lemma_sorted_unique(i as int);
            assert forall|id: u64| id != shard.id implies entries_contain(self@, id)
                == entries_contain(pre, id) && (entries_contain(pre, id) ==> entries_value(
                self@,
                id,
            ) == entries_value(pre, id)) by {
                if entries_contain(pre, id) {
                    let j = choose|j: int| 0 <= j < pre.len() && pre[j].0 == id;
                    let j2: int = if j < i { j } else { j + 1 };
                    assert(self@[j2].0 == id && self@[j2].1 == pre[j].1);
                    self.lemma_sorted_unique(j2);
                }
                if entries_contain(self@, id) {
                    let j = choose|j: int| 0 <= j < self@.len() && self@[j].0 == id;
                    let j2: int = if j < i { j } else { j - 1 };
                    assert(pre[j2].0 == id);
                }
            }
        }
        Ok(())
    }

    /// A fresh map holding the same entries.
    pub fn duplicate(&self) -> (r: ShardHashMap)
        ensures
            r@ == self@,
            self.well_formed() ==> r.well_formed(),
    {
        let mut entries: Vec<(Shard, TreeNodeHash)> = Vec::new();
        let mut i: usize = 0;
        while i < self.entries.len()
            invariant
                i <= self.entries@.len(),
                entries@.len() == i,
                forall|j: int|
                    0 <= j < i ==> entries@[j].0 == self.entries@[j].0 && entries@[j].1@
                        == self.entries@[j].1@,
            decreases self.entries@.len() - i,
        {
            let shard = self.entries[i].0;
            let hash = self.entries[i].1.duplicate();
            entries.push((shard, hash));
            i = i + 1;
        }
        let r = ShardHashMap { entries };
        proof {
            assert(r@ =~= self@);
        }
        r
    }
}

} // verus!
