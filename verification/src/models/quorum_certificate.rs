use vstd::prelude::*;
use crate::models::committee::NodeAddress;
use crate::models::hot_stuff_message_type::HotStuffMessageType;
use crate::models::shard::Shard;
use crate::models::shard_hash_map::{entries_contain, entries_value, ShardHashMap};
use crate::models::tree_node_hash::TreeNodeHash;
use crate::models::validator_signature::ValidatorSignature;
use crate::models::view_id::ViewId;

verus! {

/// Proof that a quorum of a committee agreed on a specific
/// `(message_type, view, node hashes)` tuple.
///
/// The constructor performs no validation; thresholds and signatures are
/// checked by the phase handlers at the point a certificate is accepted.
#[derive(Debug)]
pub struct QuorumCertificate {
    pub message_type: HotStuffMessageType,
    pub node_hashes: ShardHashMap,
    pub view_number: ViewId,
    pub signatures: Vec<ValidatorSignature>,
}

impl QuorumCertificate {
    pub open spec fn spec_message_type(&self) -> HotStuffMessageType {
        self.message_type
    }

    pub open spec fn spec_view_number(&self) -> ViewId {
        self.view_number
    }

    pub open spec fn spec_node_hashes(&self) -> Seq<(u64, Seq<u8>)> {
        self.node_hashes@
    }

    /// Signatures as (signer, challenge digest) pairs.
    pub open spec fn spec_signatures(&self) -> Seq<ValidatorSignature> {
        self.signatures@
    }

    pub open spec fn well_formed(&self) -> bool {
        self.node_hashes.well_formed()
    }

    /// The abstract content of a certificate: type, view, node hashes, and
    /// the signatures as (signer, challenge digest) pairs.
    pub open spec fn model(&self) -> (
        HotStuffMessageType,
        u64,
        Seq<(u64, Seq<u8>)>,
        Seq<(NodeAddress, Seq<u8>)>,
    ) {
        (
            self.message_type,
            self.view_number.0,
            self.node_hashes@,
            self.signatures@.map(|i: int, s: ValidatorSignature| (s.signer, s.challenge_hash@)),
        )
    }

    /// Pure constructor; validation is the caller's responsibility.
    pub fn new(
        message_type: HotStuffMessageType,
        view_number: ViewId,
        node_hashes: ShardHashMap,
        signatures: Vec<ValidatorSignature>,
    ) -> (r: QuorumCertificate)
        ensures
            r.spec_message_type() == message_type,
            r.spec_view_number() == view_number,
            r.spec_node_hashes() == node_hashes@,
            r.spec_signatures() == signatures@,
            node_hashes.well_formed() ==> r.well_formed(),
    {
        QuorumCertificate { message_type, node_hashes, view_number, signatures }
    }

    /// The canonical bootstrap certificate: type `Genesis`, view 0, no node
    /// hashes and no signatures. It is the trust anchor for chain-extension
    /// checks and is accepted without threshold checks.
    pub fn genesis(_node_hash: TreeNodeHash) -> (r: QuorumCertificate)
        ensures
            r.spec_message_type() == HotStuffMessageType::Genesis,
            r.spec_view_number() == ViewId(0),
            r.spec_node_hashes() == Seq::<(u64, Seq<u8>)>::empty(),
            r.spec_signatures() == Seq::<ValidatorSignature>::empty(),
            r.well_formed(),
    {
        let r = QuorumCertificate {
            message_type: HotStuffMessageType::Genesis,
            node_hashes: ShardHashMap::new(),
            view_number: ViewId(0),
            signatures: Vec::new(),
        };
        proof {
            assert(r.spec_signatures() =~= Seq::<ValidatorSignature>::empty());
        }
        r
    }

    pub fn node_hashes(&self) -> (r: &ShardHashMap)
        ensures
            r@ == self.spec_node_hashes(),
    {
        &self.node_hashes
    }

    /// The hash this certificate references for one shard.
    pub fn node_hash(&self, shard: Shard) -> (r: Option<&TreeNodeHash>)
        requires
            self.well_formed(),
        ensures
            r is Some <==> entries_contain(self.spec_node_hashes(), shard.id),
            r matches Some(h) ==> h@ == entries_value(self.spec_node_hashes(), shard.id),
    {
        self.node_hashes.get(shard)
    }

    pub fn view_number(&self) -> (r: ViewId)
        ensures
            r == self.spec_view_number(),
    {
        self.view_number
    }

    pub fn message_type(&self) -> (r: HotStuffMessageType)
        ensures
            r == self.spec_message_type(),
    {
        self.message_type
    }

    pub fn signatures(&self) -> (r: &Vec<ValidatorSignature>)
        ensures
            r@ == self.spec_signatures(),
    {
        &self.signatures
    }

    /// Accumulates one more validator signature; no bound-checking here.
    pub fn add_sig(&mut self, sig: ValidatorSignature)
        ensures
            final(self).spec_signatures() == old(self).spec_signatures().push(sig),
            final(self).spec_message_type() == old(self).spec_message_type(),
            final(self).spec_view_number() == old(self).spec_view_number(),
            final(self).spec_node_hashes() == old(self).spec_node_hashes(),
            old(self).well_formed() ==> final(self).well_formed(),
    {
        self.signatures.push(sig)
    }

    /// True when this certificate belongs to the given round: same message
    /// type and same view. Every phase uses this to ignore stale or misrouted
    /// certificates.
    pub fn matches(&self, message_type: HotStuffMessageType, view_id: ViewId) -> (r: bool)
        ensures
            r == (self.spec_message_type() == message_type && self.spec_view_number() == view_id),
    {
        self.message_type == message_type && self.view_number.0 == view_id.0
    }

    /// A fresh certificate with the same content.
    pub fn duplicate(&self) -> (r: QuorumCertificate)
        ensures
            r.spec_message_type() == self.spec_message_type(),
            r.spec_view_number() == self.spec_view_number(),
            r.spec_node_hashes() == self.spec_node_hashes(),
            r.spec_signatures().len() == self.spec_signatures().len(),
            forall|i: int|
                0 <= i < r.spec_signatures().len() ==> (r.spec_signatures()[i].signer
                    == self.spec_signatures()[i].signer && r.spec_signatures()[i].challenge_hash@
                    == self.spec_signatures()[i].challenge_hash@),
            self.well_formed() ==> r.well_formed(),
            r.model() == self.model(),
    {
        let mut signatures: Vec<ValidatorSignature> = Vec::new();
        let mut i: usize = 0;
        while i < self.signatures.len()
            invariant
                i <= self.signatures@.len(),
                signatures@.len() == i,
                forall|j: int|
                    0 <= j < i ==> (signatures@[j].signer == self.signatures@[j].signer
                        && signatures@[j].challenge_hash@ == self.signatures@[j].challenge_hash@),
            decreases self.signatures@.len() - i,
        {
            signatures.push(self.signatures[i].duplicate());
            i = i + 1;
        }
        let r = QuorumCertificate {
            message_type: self.message_type,
            node_hashes: self.node_hashes.duplicate(),
            view_number: self.view_number,
            signatures,
        };
        proof {
            assert(r.signatures@.map(
                |i: int, s: ValidatorSignature| (s.signer, s.challenge_hash@),
            ) =~= self.signatures@.map(
                |i: int, s: ValidatorSignature| (s.signer, s.challenge_hash@),
            ));
        }
        r
    }
}

} // verus!
