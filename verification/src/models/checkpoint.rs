use vstd::prelude::*;
use vstd::bytes::{spec_u64_to_le_bytes, u64_to_le_bytes};
use crate::bytes_util::{clone_bytes, extend_bytes};
use crate::hashing::{blake256, blake256_of};

verus! {

/// Commitment hash carried by a payload to bind it to a base-layer
/// checkpoint.
#[derive(Debug)]
pub struct CheckpointData {
    pub hash: Vec<u8>,
}

impl CheckpointData {
    pub fn new(hash: Vec<u8>) -> (r: CheckpointData)
        ensures
            r.hash@ == hash@,
    {
        CheckpointData { hash }
    }

    pub fn consensus_hash(&self) -> (r: &[u8])
        ensures
            r@ == self.hash@,
    {
        self.hash.as_slice()
    }
}

/// The byte string a Commit-phase checkpoint signature covers: contract id,
/// commitment, finalized state root, then the checkpoint number.
pub open spec fn spec_checkpoint_challenge_preimage(
    contract_id: Seq<u8>,
    commitment: Seq<u8>,
    state_root: Seq<u8>,
    checkpoint_number: u64,
) -> Seq<u8> {
    contract_id + commitment + state_root + spec_u64_to_le_bytes(checkpoint_number)
}

/// Challenge binding a Commit decision to a base-layer-verifiable signature.
#[derive(Debug)]
pub struct CheckpointChallenge {
    pub bytes: Vec<u8>,
}

impl CheckpointChallenge {
    pub open spec fn spec_bytes(&self) -> Seq<u8> {
        self.bytes@
    }

    pub fn new(
        contract_id: &Vec<u8>,
        commitment: &Vec<u8>,
        state_root: &Vec<u8>,
        checkpoint_number: u64,
    ) -> (r: CheckpointChallenge)
        ensures
            r.spec_bytes() == blake256_of(
                spec_checkpoint_challenge_preimage(
                    contract_id@,
                    commitment@,
                    state_root@,
                    checkpoint_number,
                ),
            ),
    {
        let mut preimage: Vec<u8> = Vec::new();
        extend_bytes(&mut preimage, contract_id.as_slice());
        extend_bytes(&mut preimage, commitment.as_slice());
        extend_bytes(&mut preimage, state_root.as_slice());
        let number_bytes = u64_to_le_bytes(checkpoint_number);
        extend_bytes(&mut preimage, number_bytes.as_slice());
        proof {
            assert(preimage@ =~= spec_checkpoint_challenge_preimage(
                contract_id@,
                commitment@,
                state_root@,
                checkpoint_number,
            ));
        }
        CheckpointChallenge { bytes: blake256(&preimage) }
    }

    pub fn as_bytes(&self) -> (r: &[u8])
        ensures
            r@ == self.spec_bytes(),
    {
        self.bytes.as_slice()
    }
}

/// A checkpoint signature handed to the base layer: the signing is an opaque
/// collaborator, modelled as binding a commitment of the signer's secret to
/// the digest of the challenge.
#[derive(Debug)]
pub struct SignerSignature {
    pub signer_commitment: Vec<u8>,
    pub challenge_hash: Vec<u8>,
}

impl SignerSignature {
    pub fn sign(signer_secret: &Vec<u8>, challenge: &CheckpointChallenge) -> (r: SignerSignature)
        ensures
            r.signer_commitment@ == blake256_of(signer_secret@),
            r.challenge_hash@ == blake256_of(challenge.spec_bytes()),
    {
        let challenge_bytes = clone_bytes(&challenge.bytes);
        SignerSignature {
            signer_commitment: blake256(signer_secret),
            challenge_hash: blake256(&challenge_bytes),
        }
    }

    /// A fresh signature with the same content.
    pub fn duplicate(&self) -> (r: SignerSignature)
        ensures
            r.signer_commitment@ == self.signer_commitment@,
            r.challenge_hash@ == self.challenge_hash@,
    {
        SignerSignature {
            signer_commitment: clone_bytes(&self.signer_commitment),
            challenge_hash: clone_bytes(&self.challenge_hash),
        }
    }
}

} // verus!
