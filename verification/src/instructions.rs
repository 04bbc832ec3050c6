//! Engine instructions as consensus sees them: content-addressed method
//! calls declaring the shard keys they touch.

use vstd::prelude::*;
use vstd::utf8::encode_utf8;
use vstd::string::StringExecFns;
use crate::bytes_util::{clone_bytes, extend_bytes};
use crate::hashing::{blake256, blake256_of};
use crate::models::asset_meta::TemplateId;
use crate::models::shard::{key_views, ShardKey};

verus! {

/// The content address of an instruction: the digest of its method name's
/// UTF-8 bytes followed by its argument bytes.
pub open spec fn spec_instruction_hash(method: Seq<char>, args: Seq<u8>) -> Seq<u8> {
    blake256_of(encode_utf8(method) + args)
}

/// A content-addressed instruction: a method call with arguments, a sender,
/// and the shard keys it touches.
#[derive(Debug)]
pub struct Instruction {
    pub template_id: TemplateId,
    pub method: String,
    pub args: Vec<u8>,
    pub sender: Vec<u8>,
    pub hash: Vec<u8>,
    pub involved_shards: Vec<ShardKey>,
}

impl Instruction {
    /// The stored hash is the content address of method and arguments.
    pub open spec fn well_formed(&self) -> bool {
        self.hash@ == spec_instruction_hash(self.method@, self.args@)
    }

    /// The shard keys as byte strings.
    pub open spec fn spec_shard_keys(&self) -> Seq<Seq<u8>> {
        key_views(self.involved_shards@)
    }

    pub fn new(
        template_id: TemplateId,
        method: String,
        args: Vec<u8>,
        sender: Vec<u8>,
        involved_shards: Vec<ShardKey>,
    ) -> (r: Instruction)
        ensures
            r.well_formed(),
            r.template_id == template_id,
            r.method@ == method@,
            r.args@ == args@,
            r.sender@ == sender@,
            r.spec_shard_keys() == key_views(involved_shards@),
    {
        let mut preimage: Vec<u8> = Vec::new();
        extend_bytes(&mut preimage, method.as_str().as_bytes());
        extend_bytes(&mut preimage, args.as_slice());
        proof {
            assert(preimage@ =~= encode_utf8(method@) + args@);
        }
        let hash = blake256(&preimage);
        Instruction { template_id, method, args, sender, hash, involved_shards }
    }

    pub fn template_id(&self) -> (r: TemplateId)
        ensures
            r == self.template_id,
    {
        self.template_id
    }

    pub fn method(&self) -> (r: &str)
        ensures
            r@ == self.method@,
    {
        self.method.as_str()
    }

    pub fn args(&self) -> (r: &[u8])
        ensures
            r@ == self.args@,
    {
        self.args.as_slice()
    }

    pub fn sender(&self) -> (r: Vec<u8>)
        ensures
            r@ == self.sender@,
    {
        clone_bytes(&self.sender)
    }

    pub fn involved_shard_keys(&self) -> (r: &Vec<ShardKey>)
        ensures
            r@ == self.involved_shards@,
    {
        &self.involved_shards
    }

    pub fn hash(&self) -> (r: &Vec<u8>)
        ensures
            r@ == self.hash@,
    {
        &self.hash
    }

    /// Recomputes the content address from the fields.
    pub fn calculate_hash(&self) -> (r: Vec<u8>)
        ensures
            r@ == spec_instruction_hash(self.method@, self.args@),
            self.well_formed() ==> r@ == self.hash@,
    {
        let mut preimage: Vec<u8> = Vec::new();
        extend_bytes(&mut preimage, self.method.as_str().as_bytes());
        extend_bytes(&mut preimage, self.args.as_slice());
        proof {
            assert(preimage@ =~= encode_utf8(self.method@) + self.args@);
        }
        blake256(&preimage)
    }

    /// A fresh instruction with the same content.
    pub fn duplicate(&self) -> (r: Instruction)
        ensures
            r.template_id == self.template_id,
            r.method@ == self.method@,
            r.args@ == self.args@,
            r.sender@ == self.sender@,
            r.hash@ == self.hash@,
            r.spec_shard_keys() == self.spec_shard_keys(),
            self.well_formed() ==> r.well_formed(),
    {
        let mut involved_shards: Vec<ShardKey> = Vec::new();
        let mut i: usize = 0;
        while i < self.involved_shards.len()
            invariant
                i <= self.involved_shards@.len(),
                involved_shards@.len() == i,
                forall|j: int| 0 <= j < i ==> involved_shards@[j]@ == self.involved_shards@[j]@,
            decreases self.involved_shards@.len() - i,
        {
            involved_shards.push(self.involved_shards[i].duplicate());
            i = i + 1;
        }
        let r = Instruction {
            template_id: self.template_id,
            method: String::from_str(self.method.as_str()),
            args: clone_bytes(&self.args),
            sender: clone_bytes(&self.sender),
            hash: clone_bytes(&self.hash),
            involved_shards,
        };
        proof {
            assert(r.spec_shard_keys() =~~= self.spec_shard_keys());
        }
        r
    }
}

/// The ordered batch of instructions one payload carries, with its own
/// content address: the digest of the concatenated instruction hashes.
pub open spec fn spec_instruction_set_hash(hashes: Seq<Seq<u8>>) -> Seq<u8> {
    blake256_of(spec_concat(hashes))
}

/// The concatenation of a sequence of byte strings.
pub open spec fn spec_concat(parts: Seq<Seq<u8>>) -> Seq<u8>
    decreases parts.len(),
{
    if parts.len() == 0 {
        Seq::empty()
    } else {
        spec_concat(parts.drop_last()) + parts.last()
    }
}

#[derive(Debug)]
pub struct InstructionSet {
    pub instructions: Vec<Instruction>,
    pub hash: Vec<u8>,
}

impl InstructionSet {
    pub open spec fn well_formed(&self) -> bool {
        self.hash@ == spec_instruction_set_hash(
            self.instructions@.map(|i: int, ins: Instruction| ins.hash@),
        )
    }

    /// The batch with no instructions.
    pub fn empty() -> (r: InstructionSet)
        ensures
            r.well_formed(),
            r.instructions@.len() == 0,
    {
        let instructions: Vec<Instruction> = Vec::new();
        let ghost hashes = instructions@.map(|i: int, ins: Instruction| ins.hash@);
        let preimage: Vec<u8> = Vec::new();
        proof {
            assert(hashes =~= Seq::<Seq<u8>>::empty());
            assert(preimage@ =~= spec_concat(hashes));
        }
        let hash = blake256(&preimage);
        InstructionSet { instructions, hash }
    }

    /// A batch over the given instructions.
    pub fn from_instructions(instructions: Vec<Instruction>) -> (r: InstructionSet)
        ensures
            r.well_formed(),
            r.instructions@ == instructions@,
    {
        let ghost hashes = instructions@.map(|i: int, ins: Instruction| ins.hash@);
        let mut preimage: Vec<u8> = Vec::new();
        let mut i: usize = 0;
        while i < instructions.len()
            invariant
                i <= instructions@.len(),
                hashes == instructions@.map(|j: int, ins: Instruction| ins.hash@),
                preimage@ == spec_concat(hashes.take(i as int)),
            decreases instructions@.len() - i,
        {
            extend_bytes(&mut preimage, instructions[i].hash.as_slice());
            i = i + 1;
            proof {
                assert(hashes.take(i as int).drop_last() =~= hashes.take(i as int - 1));
                assert(hashes.take(i as int).last() == hashes[i as int - 1]);
            }
        }
        proof {
            assert(hashes.take(hashes.len() as int) =~= hashes);
        }
        let hash = blake256(&preimage);
        InstructionSet { instructions, hash }
    }

    pub fn instructions(&self) -> (r: &Vec<Instruction>)
        ensures
            r@ == self.instructions@,
    {
        &self.instructions
    }

    pub fn consensus_hash(&self) -> (r: &[u8])
        ensures
            r@ == self.hash@,
    {
        self.hash.as_slice()
    }
}

} // verus!
