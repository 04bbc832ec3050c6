use vstd::prelude::*;
use crate::bytes_util::{clone_bytes, extend_bytes};
use crate::hashing::{blake256, blake256_of};
use crate::instructions::{Instruction, InstructionSet};
use crate::models::checkpoint::CheckpointData;
use crate::models::payload::Payload;
use crate::models::shard::{key_views, ShardKey};

verus! {

/// The content address of a payload: the digest of its instruction-set
/// hash, followed by the checkpoint hash when one is carried.
pub open spec fn spec_dan_payload_hash(set_hash: Seq<u8>, checkpoint: Option<Seq<u8>>) -> Seq<u8> {
    match checkpoint {
        Some(ck) => blake256_of(set_hash + ck),
        None => blake256_of(set_hash),
    }
}

/// Every shard key any of the instructions touches, in instruction order.
pub open spec fn spec_all_instruction_keys(instructions: Seq<Instruction>) -> Seq<Seq<u8>>
    decreases instructions.len(),
{
    if instructions.len() == 0 {
        Seq::empty()
    } else {
        spec_all_instruction_keys(instructions.drop_last())
            + instructions.last().spec_shard_keys()
    }
}

/// The production payload: a batch of instructions, optionally bound to a
/// base-layer checkpoint, under one content address.
#[derive(Debug)]
pub struct TariDanPayload {
    pub hash: Vec<u8>,
    pub instruction_set: InstructionSet,
    pub checkpoint: Option<CheckpointData>,
}

impl TariDanPayload {
    pub open spec fn spec_checkpoint_hash(&self) -> Option<Seq<u8>> {
        match self.checkpoint {
            Some(ck) => Some(ck.hash@),
            None => None,
        }
    }

    pub open spec fn well_formed(&self) -> bool {
        self.hash@ == spec_dan_payload_hash(
            self.instruction_set.hash@,
            self.spec_checkpoint_hash(),
        )
    }

    pub fn new(instruction_set: InstructionSet, checkpoint: Option<CheckpointData>) -> (r:
        TariDanPayload)
        ensures
            r.well_formed(),
            r.instruction_set.instructions@ == instruction_set.instructions@,
            r.instruction_set.hash@ == instruction_set.hash@,
            (checkpoint matches Some(ck) ==> r.spec_checkpoint_hash() == Some(ck.hash@)),
            checkpoint is None ==> r.spec_checkpoint_hash() is None,
    {
        let mut preimage: Vec<u8> = Vec::new();
        extend_bytes(&mut preimage, instruction_set.consensus_hash());
        match &checkpoint {
            Some(ck) => {
                extend_bytes(&mut preimage, ck.consensus_hash());
                proof {
                    assert(preimage@ =~= instruction_set.hash@ + ck.hash@);
                }
            },
            None => {
                proof {
                    assert(preimage@ =~= instruction_set.hash@);
                }
            },
        }
        let hash = blake256(&preimage);
        TariDanPayload { hash, instruction_set, checkpoint }
    }

    /// Takes the payload apart again.
    pub fn destruct(self) -> (r: (InstructionSet, Option<CheckpointData>))
        ensures
            r.0 == self.instruction_set,
            r.1 == self.checkpoint,
    {
        (self.instruction_set, self.checkpoint)
    }

    pub fn instructions(&self) -> (r: &Vec<Instruction>)
        ensures
            r@ == self.instruction_set.instructions@,
    {
        self.instruction_set.instructions()
    }

    /// Recomputes the content address from the fields.
    pub fn calculate_hash(&self) -> (r: Vec<u8>)
        ensures
            r@ == spec_dan_payload_hash(
                self.instruction_set.hash@,
                self.spec_checkpoint_hash(),
            ),
            self.well_formed() ==> r@ == self.hash@,
    {
        let mut preimage: Vec<u8> = Vec::new();
        extend_bytes(&mut preimage, self.instruction_set.consensus_hash());
        match &self.checkpoint {
            Some(ck) => {
                extend_bytes(&mut preimage, ck.consensus_hash());
                proof {
                    assert(preimage@ =~= self.instruction_set.hash@ + ck.hash@);
                }
            },
            None => {
                proof {
                    assert(preimage@ =~= self.instruction_set.hash@);
                }
            },
        }
        blake256(&preimage)
    }
}

impl Payload for TariDanPayload {
    open spec fn spec_is_empty(&self) -> bool {
        self.instruction_set.instructions@.len() == 0 && self.checkpoint is None
    }

    open spec fn spec_shard_keys(&self) -> Seq<Seq<u8>> {
        spec_all_instruction_keys(self.instruction_set.instructions@)
    }

    open spec fn spec_hash(&self) -> Seq<u8> {
        self.hash@
    }

    fn is_empty(&self) -> (r: bool) {
        self.instruction_set.instructions.len() == 0 && self.checkpoint.is_none()
    }

    fn involved_shard_keys(&self) -> (r: Vec<ShardKey>) {
        let instructions = self.instruction_set.instructions();
        let mut r: Vec<ShardKey> = Vec::new();
        let mut i: usize = 0;
        while i < instructions.len()
            invariant
                i <= instructions@.len(),
                instructions@ == self.instruction_set.instructions@,
                key_views(r@) == spec_all_instruction_keys(instructions@.take(i as int)),
            decreases instructions@.len() - i,
        {
            let keys = instructions[i].involved_shard_keys();
            let ghost before = r@;
            let mut k: usize = 0;
            while k < keys.len()
                invariant
                    k <= keys@.len(),
                    keys@ == instructions@[i as int].involved_shards@,
                    i < instructions@.len(),
                    key_views(r@) == key_views(before) + key_views(keys@).take(k as int),
                decreases keys@.len() - k,
            {
                let ghost pre = r@;
                r.push(keys[k].duplicate());
                k = k + 1;
                proof {
                    assert(key_views(r@) =~= key_views(pre).push(r@.last()@));
                    assert(key_views(keys@).take(k as int) =~= key_views(keys@).take(
                        k as int - 1,
                    ).push(keys@[k as int - 1]@));
                    assert(key_views(r@) =~= key_views(before) + key_views(keys@).take(k as int));
                }
            }
            i = i + 1;
            proof {
                assert(instructions@.take(i as int).drop_last() =~= instructions@.take(
                    i as int - 1,
                ));
                assert(instructions@.take(i as int).last() == instructions@[i as int - 1]);
                assert(key_views(keys@).take(keys@.len() as int) =~= key_views(keys@));
                assert(key_views(keys@) == instructions@[i as int - 1].spec_shard_keys());
                assert(key_views(r@) =~= spec_all_instruction_keys(
                    instructions@.take(i as int),
                ));
            }
        }
        proof {
            assert(instructions@.take(instructions@.len() as int) =~= instructions@);
            assert forall|j: int| 0 <= j < r@.len() implies r@[j]@ == self.spec_shard_keys()[j] by {
                assert(key_views(r@)[j] == r@[j]@);
            }
        }
        r
    }

    fn consensus_hash(&self) -> (r: Vec<u8>) {
        clone_bytes(&self.hash)
    }

    fn duplicate(&self) -> (r: Self) {
        let mut instructions: Vec<Instruction> = Vec::new();
        let mut i: usize = 0;
        while i < self.instruction_set.instructions.len()
            invariant
                i <= self.instruction_set.instructions@.len(),
                instructions@.len() == i,
                forall|j: int| #![auto]
                    0 <= j < i ==> (instructions@[j].spec_shard_keys()
                        == self.instruction_set.instructions@[j].spec_shard_keys()
                        && instructions@[j].hash@
                        == self.instruction_set.instructions@[j].hash@),
            decreases self.instruction_set.instructions@.len() - i,
        {
            instructions.push(self.instruction_set.instructions[i].duplicate());
            i = i + 1;
        }
        let checkpoint = match &self.checkpoint {
            Some(ck) => Some(CheckpointData::new(clone_bytes(&ck.hash))),
            None => None,
        };
        let r = TariDanPayload {
            hash: clone_bytes(&self.hash),
            instruction_set: InstructionSet {
                instructions,
                hash: clone_bytes(&self.instruction_set.hash),
            },
            checkpoint,
        };
        proof {
            lemma_all_keys_congruent(
                r.instruction_set.instructions@,
                self.instruction_set.instructions@,
            );
        }
        r
    }
}

/// Instruction sequences that agree pairwise on their shard keys yield the
/// same flattened key sequence.
proof fn lemma_all_keys_congruent(a: Seq<Instruction>, b: Seq<Instruction>)
    requires
        a.len() == b.len(),
        forall|j: int| #![auto] 0 <= j < a.len() ==> a[j].spec_shard_keys() == b[j].spec_shard_keys(),
    ensures
        spec_all_instruction_keys(a) == spec_all_instruction_keys(b),
    decreases a.len(),
{
    if a.len() > 0 {
        lemma_all_keys_congruent(a.drop_last(), b.drop_last());
        assert(a.last() == a[a.len() - 1]);
        assert(b.last() == b[b.len() - 1]);
    }
}

} // verus!
