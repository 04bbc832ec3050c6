use vstd::prelude::*;
use crate::errors::DigitalAssetError;
use crate::hashing::{blake256, blake256_of};
use crate::models::committee::NodeAddress;
use crate::models::validator_signature::ValidatorSignature;

verus! {

/// Produces validator signatures over vote challenges.
///
/// Signing is consumed as an opaque collaborator with a fixed contract: the
/// returned signature binds the given identity to the digest of the given
/// challenge bytes, and `ValidatorSignature::verify` recomputes exactly that
/// binding.
#[derive(Clone, Copy, Debug)]
pub struct SigningService {}

impl SigningService {
    pub fn new() -> (r: SigningService) {
        SigningService {  }
    }

    pub fn sign(&self, identity: &NodeAddress, challenge: &Vec<u8>) -> (r: Result<
        ValidatorSignature,
        DigitalAssetError,
    >)
        ensures
            r matches Ok(sig) && sig.signer == *identity && sig.challenge_hash@ == blake256_of(
                challenge@,
            ),
            r matches Ok(sig) && sig.spec_verifies(*identity, challenge@),
    {
        Ok(ValidatorSignature { signer: *identity, challenge_hash: blake256(challenge) })
    }
}

/// A signing service as the tests wire it up.
pub fn mock_signing_service() -> (r: SigningService) {
    SigningService::new()
}

} // verus!
