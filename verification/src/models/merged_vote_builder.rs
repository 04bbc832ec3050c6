use vstd::prelude::*;
use crate::errors::DigitalAssetError;
use crate::models::shard::Shard;
use crate::models::shard_hash_map::{entries_contain, entries_value, ShardHashMap};
use crate::models::tree_node_hash::TreeNodeHash;

verus! {

/// Per-phase accumulator of one agreed tree-node hash per shard.
///
/// A payload that spans several shards commits only once every involved shard
/// has contributed its hash; a conflicting hash for a shard that already
/// voted is surfaced as an error, never merged silently.
#[derive(Debug)]
pub struct MergedVoteBuilder {
    votes: ShardHashMap,
}

impl View for MergedVoteBuilder {
    type V = Seq<(u64, Seq<u8>)>;

    closed spec fn view(&self) -> Seq<(u64, Seq<u8>)> {
        self.votes@
    }
}

impl MergedVoteBuilder {
    pub open spec fn well_formed(&self) -> bool {
        crate::models::shard_hash_map::entries_sorted(self@)
    }

    pub fn new() -> (r: MergedVoteBuilder)
        ensures
            r@ == Seq::<(u64, Seq<u8>)>::empty(),
            r.well_formed(),
    {
        MergedVoteBuilder { votes: ShardHashMap::new() }
    }

    /// Records `hash` as `shard`'s agreed hash for the phase in progress.
    pub fn add(&mut self, shard: Shard, hash: TreeNodeHash) -> (r: Result<(), DigitalAssetError>)
        requires
            old(self).well_formed(),
        ensures
            final(self).well_formed(),
            r is Ok <==> (!entries_contain(old(self)@, shard.id) || entries_value(
                old(self)@,
                shard.id,
            ) == hash@),
            r is Err ==> final(self)@ == old(self)@ && r == Result::<(), DigitalAssetError>::Err(
                DigitalAssetError::ConflictingVoteForShard,
            ),
            r is Ok ==> entries_contain(final(self)@, shard.id) && entries_value(
                final(self)@,
                shard.id,
            ) == hash@,
            r is Ok ==> forall|id: u64|
                id != shard.id ==> (entries_contain(final(self)@, id) == entries_contain(
                    old(self)@,
                    id,
                ) && (entries_contain(old(self)@, id) ==> entries_value(final(self)@, id)
                    == entries_value(old(self)@, id))),
    {
        self.votes.insert(shard, hash)
    }

    /// True exactly when every required shard has a recorded hash.
    pub fn is_complete(&self, required_shards: &Vec<Shard>) -> (r: bool)
        requires
            self.well_formed(),
        ensures
            r == forall|i: int|
                0 <= i < required_shards@.len() ==> entries_contain(
                    self@,
                    required_shards@[i].id,
                ),
    {
        let mut i: usize = 0;
        while i < required_shards.len()
            invariant
                i <= required_shards@.len(),
                self.well_formed(),
                forall|j: int| 0 <= j < i ==> entries_contain(self@, required_shards@[j].id),
            decreases required_shards@.len() - i,
        {
            if self.votes.get(required_shards[i]).is_none() {
                return false;
            }
            i = i + 1;
        }
        true
    }

    /// Hands the accumulated votes out and resets for the next phase.
    pub fn build_and_clear(&mut self) -> (r: ShardHashMap)
        requires
            old(self).well_formed(),
        ensures
            r@ == old(self)@,
            r.well_formed(),
            final(self)@ == Seq::<(u64, Seq<u8>)>::empty(),
            final(self).well_formed(),
    {
        let r = self.votes.duplicate();
        self.votes = ShardHashMap::new();
        r
    }
}

} // verus!
