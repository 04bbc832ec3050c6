use vstd::prelude::*;
use crate::bytes_util::extend_bytes;
use crate::errors::DigitalAssetError;
use crate::hashing::{blake256, blake256_of};
use crate::models::payload::Payload;
use crate::storage::state_db::StateDbUnitOfWork;

verus! {

/// The state root that applying a payload to a state with the given prior
/// root commits to: the digest of the prior root followed by the payload's
/// content hash. A pure function of its two arguments — every correct
/// replica derives the same root from the same inputs.
pub open spec fn spec_state_root_after(prior_root: Seq<u8>, payload_hash: Seq<u8>) -> Seq<u8> {
    blake256_of(prior_root + payload_hash)
}

/// Applies a payload to a state unit of work and returns the resulting
/// state-root commitment.
#[derive(Clone, Copy, Debug)]
pub struct PayloadProcessor {}

impl PayloadProcessor {
    pub fn new() -> (r: PayloadProcessor) {
        PayloadProcessor {  }
    }

    /// Deterministic: the returned root is a function of the prior root and
    /// the payload's content hash alone, and the unit of work is advanced to
    /// it.
    pub fn process_payload<P: Payload>(
        &self,
        payload: &P,
        state: &mut StateDbUnitOfWork,
    ) -> (r: Result<Vec<u8>, DigitalAssetError>)
        ensures
            r matches Ok(root) && root@ == spec_state_root_after(
                old(state).state_root@,
                payload.spec_hash(),
            ),
            final(state).state_root@ == spec_state_root_after(
                old(state).state_root@,
                payload.spec_hash(),
            ),
            final(state).height == old(state).height,
            final(state).updates@.len() == old(state).updates@.len() + 1,
            forall|i: int|
                0 <= i < old(state).updates@.len() ==> final(state).updates@[i]
                    == old(state).updates@[i],
    {
        let payload_hash = payload.consensus_hash();
        let mut preimage: Vec<u8> = Vec::new();
        extend_bytes(&mut preimage, state.state_root().as_slice());
        extend_bytes(&mut preimage, payload_hash.as_slice());
        proof {
            assert(preimage@ =~= old(state).state_root@ + payload.spec_hash());
        }
        let root = blake256(&preimage);
        let root_copy = crate::bytes_util::clone_bytes(&root);
        let record_key = crate::bytes_util::clone_bytes(&root);
        state.set_value(record_key, payload_hash);
        state.set_state_root(root_copy);
        Ok(root)
    }
}

/// Deterministic state root: two replicas applying payloads with the same
/// content hash to states with the same prior root derive the same root,
/// byte for byte.
pub proof fn lemma_deterministic_state_root(
    prior_a: Seq<u8>,
    prior_b: Seq<u8>,
    hash_a: Seq<u8>,
    hash_b: Seq<u8>,
)
    requires
        prior_a == prior_b,
        hash_a == hash_b,
    ensures
        spec_state_root_after(prior_a, hash_a) == spec_state_root_after(prior_b, hash_b),
{
}

} // verus!
