use vstd::prelude::*;
use crate::bytes_util::{clone_bytes, eq_bytes};
use crate::hashing::blake256_of;
use crate::models::committee::NodeAddress;

verus! {

/// A validator's signature over a vote challenge.
///
/// The core consumes signing as an opaque collaborator: a signature binds the
/// signer's identity to the digest of the challenge bytes, and verification
/// recomputes that binding. Nothing else about the underlying scheme is
/// relied on.
#[derive(Clone, Debug)]
pub struct ValidatorSignature {
    pub signer: NodeAddress,
    pub challenge_hash: Vec<u8>,
}

impl ValidatorSignature {
    /// True exactly when this signature binds `signer` to `challenge`.
    pub open spec fn spec_verifies(&self, signer: NodeAddress, challenge: Seq<u8>) -> bool {
        self.signer == signer && self.challenge_hash@ == blake256_of(challenge)
    }

    pub fn verify(&self, signer: &NodeAddress, challenge: &Vec<u8>) -> (r: bool)
        ensures
            r == self.spec_verifies(*signer, challenge@),
    {
        let expected = crate::hashing::blake256(challenge);
        self.signer.0 == signer.0 && eq_bytes(&self.challenge_hash, &expected)
    }

    /// A fresh signature with the same content.
    pub fn duplicate(&self) -> (r: ValidatorSignature)
        ensures
            r.signer == self.signer,
            r.challenge_hash@ == self.challenge_hash@,
    {
        ValidatorSignature { signer: self.signer, challenge_hash: clone_bytes(&self.challenge_hash) }
    }
}

/// Aggregate signature of the wire model; two partial signatures combine by
/// keeping the newer one.
#[derive(Clone, Debug)]
pub struct Signature {}

impl Signature {
    pub fn combine(&self, other: &Signature) -> (r: Signature)
        ensures
            r == *other,
    {
        Signature {  }
    }
}

} // verus!
