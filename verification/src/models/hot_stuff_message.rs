use vstd::prelude::*;
use vstd::bytes::{spec_u64_to_le_bytes, u64_to_le_bytes};
use crate::bytes_util::extend_bytes;
use crate::hashing::{blake256, blake256_of};
use crate::models::checkpoint::SignerSignature;
use crate::models::hot_stuff_message_type::{message_type_u8, HotStuffMessageType};
use crate::models::hot_stuff_tree_node::{spec_node_hash, HotStuffTreeNode};
use crate::models::payload::Payload;
use crate::models::quorum_certificate::QuorumCertificate;
use crate::models::shard::Shard;
use crate::models::shard_hash_map::ShardHashMap;
use crate::models::validator_signature::ValidatorSignature;
use crate::models::view_id::ViewId;

verus! {

/// Canonical encoding of a vote map: each entry contributes its shard id in
/// little-endian bytes followed by the recorded hash, in ascending shard
/// order.
pub open spec fn spec_vote_entries_encoding(s: Seq<(u64, Seq<u8>)>) -> Seq<u8>
    decreases s.len(),
{
    if s.len() == 0 {
        Seq::empty()
    } else {
        spec_vote_entries_encoding(s.drop_last()) + spec_u64_to_le_bytes(s.last().0)
            + s.last().1
    }
}

/// The byte string a message's partial signature covers: the message type
/// byte, the view in little-endian bytes, then the node part — the
/// proposal's content address for a leader message, or the length-prefixed
/// vote-map encoding for a replica vote.
pub open spec fn spec_challenge_preimage(
    t: HotStuffMessageType,
    view: u64,
    node_part: Seq<u8>,
) -> Seq<u8> {
    seq![message_type_u8(t)] + spec_u64_to_le_bytes(view) + node_part
}

/// The wire envelope of the protocol. A leader proposal carries `node` and
/// `justify`; a replica vote carries `node_hashes` and a partial signature.
#[derive(Debug)]
pub struct HotStuffMessage<P: Payload> {
    pub view_number: ViewId,
    pub shard: Shard,
    pub message_type: HotStuffMessageType,
    pub justify: Option<QuorumCertificate>,
    pub node: Option<HotStuffTreeNode<P>>,
    pub node_hashes: Option<ShardHashMap>,
    pub partial_sig: Option<ValidatorSignature>,
    pub checkpoint_signature: Option<SignerSignature>,
}

impl<P: Payload> HotStuffMessage<P> {
    pub open spec fn spec_view_number(&self) -> ViewId {
        self.view_number
    }

    pub open spec fn spec_shard(&self) -> Shard {
        self.shard
    }

    pub open spec fn spec_message_type(&self) -> HotStuffMessageType {
        self.message_type
    }

    pub open spec fn spec_justify(&self) -> Option<QuorumCertificate> {
        self.justify
    }

    pub open spec fn spec_node(&self) -> Option<HotStuffTreeNode<P>> {
        self.node
    }

    pub open spec fn spec_node_hashes(&self) -> Option<Seq<(u64, Seq<u8>)>> {
        match self.node_hashes {
            Some(m) => Some(m@),
            None => None,
        }
    }

    pub open spec fn spec_partial_sig(&self) -> Option<ValidatorSignature> {
        self.partial_sig
    }

    pub open spec fn well_formed(&self) -> bool {
        &&& (self.node matches Some(n) ==> n.well_formed())
        &&& (self.node_hashes matches Some(m) ==> m.well_formed())
        &&& (self.justify matches Some(qc) ==> qc.well_formed())
    }

    /// The node part of this message's signing challenge.
    pub open spec fn spec_node_part(&self) -> Seq<u8> {
        if self.node is Some {
            let n = self.node->0;
            spec_node_hash(
                n.spec_parent(),
                n.spec_payload().spec_hash(),
                n.spec_state_root(),
                n.spec_height(),
            )
        } else if self.node_hashes is Some {
            let m = self.node_hashes->0;
            spec_u64_to_le_bytes(m@.len() as u64) + spec_vote_entries_encoding(m@)
        } else {
            Seq::empty()
        }
    }

    /// General constructor over every field.
    pub fn new(
        view_number: ViewId,
        shard: Shard,
        message_type: HotStuffMessageType,
        justify: Option<QuorumCertificate>,
        node: Option<HotStuffTreeNode<P>>,
        node_hashes: Option<ShardHashMap>,
        partial_sig: Option<ValidatorSignature>,
        checkpoint_signature: Option<SignerSignature>,
    ) -> (r: HotStuffMessage<P>)
        ensures
            r.spec_view_number() == view_number,
            r.spec_shard() == shard,
            r.spec_message_type() == message_type,
            r.spec_justify() == justify,
            r.spec_node() == node,
            (node_hashes matches Some(m) ==> r.spec_node_hashes() == Some(m@)),
            (node_hashes is None ==> r.spec_node_hashes() is None),
            r.spec_partial_sig() == partial_sig,
    {
        HotStuffMessage {
            view_number,
            shard,
            message_type,
            justify,
            node,
            node_hashes,
            partial_sig,
            checkpoint_signature,
        }
    }

    /// A replica's `NewView` message handing its prepare certificate to the
    /// next leader.
    pub fn new_view(prepare_qc: QuorumCertificate, view_number: ViewId, shard: Shard) -> (r:
        HotStuffMessage<P>)
        ensures
            r.spec_message_type() == HotStuffMessageType::NewView,
            r.spec_view_number() == view_number,
            r.spec_shard() == shard,
            r.spec_justify() == Some(prepare_qc),
            r.spec_node() is None,
            r.spec_node_hashes() is None,
            r.spec_partial_sig() is None,
            prepare_qc.well_formed() ==> r.well_formed(),
    {
        HotStuffMessage {
            shard,
            message_type: HotStuffMessageType::NewView,
            view_number,
            justify: Some(prepare_qc),
            node: None,
            partial_sig: None,
            checkpoint_signature: None,
            node_hashes: None,
        }
    }

    /// The leader's Prepare proposal.
    pub fn prepare(
        proposal: HotStuffTreeNode<P>,
        high_qc: Option<QuorumCertificate>,
        view_number: ViewId,
        shard: Shard,
    ) -> (r: HotStuffMessage<P>)
        ensures
            r.spec_message_type() == HotStuffMessageType::Prepare,
            r.spec_view_number() == view_number,
            r.spec_shard() == shard,
            r.spec_justify() == high_qc,
            r.spec_node() == Some(proposal),
            r.spec_node_hashes() is None,
            r.spec_partial_sig() is None,
            proposal.well_formed() && (high_qc matches Some(qc) ==> qc.well_formed())
                ==> r.well_formed(),
    {
        HotStuffMessage {
            message_type: HotStuffMessageType::Prepare,
            node: Some(proposal),
            justify: high_qc,
            view_number,
            shard,
            partial_sig: None,
            checkpoint_signature: None,
            node_hashes: None,
        }
    }

    /// A replica's Prepare vote carrying one agreed hash per involved shard.
    pub fn vote_prepare(node_hashes: ShardHashMap, view_number: ViewId, shard: Shard) -> (r:
        HotStuffMessage<P>)
        ensures
            r.spec_message_type() == HotStuffMessageType::Prepare,
            r.spec_view_number() == view_number,
            r.spec_shard() == shard,
            r.spec_node_hashes() == Some(node_hashes@),
            r.spec_node() is None,
            r.spec_justify() is None,
            r.spec_partial_sig() is None,
            node_hashes.well_formed() ==> r.well_formed(),
    {
        HotStuffMessage {
            message_type: HotStuffMessageType::Prepare,
            node_hashes: Some(node_hashes),
            view_number,
            shard,
            node: None,
            partial_sig: None,
            checkpoint_signature: None,
            justify: None,
        }
    }

    /// The leader's PreCommit message carrying the prepare certificate.
    pub fn pre_commit(
        node: Option<HotStuffTreeNode<P>>,
        prepare_qc: Option<QuorumCertificate>,
        view_number: ViewId,
        shard: Shard,
    ) -> (r: HotStuffMessage<P>)
        ensures
            r.spec_message_type() == HotStuffMessageType::PreCommit,
            r.spec_view_number() == view_number,
            r.spec_shard() == shard,
            r.spec_justify() == prepare_qc,
            r.spec_node() == node,
            r.spec_node_hashes() is None,
            r.spec_partial_sig() is None,
            (node matches Some(n) ==> n.well_formed()) && (prepare_qc matches Some(qc)
                ==> qc.well_formed()) ==> r.well_formed(),
    {
        HotStuffMessage {
            message_type: HotStuffMessageType::PreCommit,
            node,
            justify: prepare_qc,
            view_number,
            shard,
            node_hashes: None,
            checkpoint_signature: None,
            partial_sig: None,
        }
    }

    /// A replica's PreCommit vote.
    pub fn vote_pre_commit(node_hashes: ShardHashMap, view_number: ViewId, shard: Shard) -> (r:
        HotStuffMessage<P>)
        ensures
            r.spec_message_type() == HotStuffMessageType::PreCommit,
            r.spec_view_number() == view_number,
            r.spec_shard() == shard,
            r.spec_node_hashes() == Some(node_hashes@),
            r.spec_node() is None,
            r.spec_justify() is None,
            r.spec_partial_sig() is None,
            node_hashes.well_formed() ==> r.well_formed(),
    {
        HotStuffMessage {
            message_type: HotStuffMessageType::PreCommit,
            node_hashes: Some(node_hashes),
            view_number,
            shard,
            node: None,
            partial_sig: None,
            checkpoint_signature: None,
            justify: None,
        }
    }

    /// The leader's Commit message carrying the pre-commit certificate.
    pub fn commit(
        node: Option<HotStuffTreeNode<P>>,
        pre_commit_qc: Option<QuorumCertificate>,
        view_number: ViewId,
        shard: Shard,
    ) -> (r: HotStuffMessage<P>)
        ensures
            r.spec_message_type() == HotStuffMessageType::Commit,
            r.spec_view_number() == view_number,
            r.spec_shard() == shard,
            r.spec_justify() == pre_commit_qc,
            r.spec_node() == node,
            r.spec_node_hashes() is None,
            r.spec_partial_sig() is None,
            (node matches Some(n) ==> n.well_formed()) && (pre_commit_qc matches Some(qc)
                ==> qc.well_formed()) ==> r.well_formed(),
    {
        HotStuffMessage {
            message_type: HotStuffMessageType::Commit,
            node,
            justify: pre_commit_qc,
            view_number,
            shard,
            partial_sig: None,
            checkpoint_signature: None,
            node_hashes: None,
        }
    }

    /// A replica's Commit vote, additionally carrying the checkpoint
    /// signature destined for the base layer.
    pub fn vote_commit(
        node_hashes: ShardHashMap,
        view_number: ViewId,
        shard: Shard,
        checkpoint_signature: SignerSignature,
    ) -> (r: HotStuffMessage<P>)
        ensures
            r.spec_message_type() == HotStuffMessageType::Commit,
            r.spec_view_number() == view_number,
            r.spec_shard() == shard,
            r.spec_node_hashes() == Some(node_hashes@),
            r.spec_node() is None,
            r.spec_justify() is None,
            r.spec_partial_sig() is None,
            node_hashes.well_formed() ==> r.well_formed(),
    {
        HotStuffMessage {
            message_type: HotStuffMessageType::Commit,
            node_hashes: Some(node_hashes),
            view_number,
            shard,
            node: None,
            partial_sig: None,
            checkpoint_signature: Some(checkpoint_signature),
            justify: None,
        }
    }

    /// The leader's Decide message carrying the commit certificate.
    pub fn decide(
        node: Option<HotStuffTreeNode<P>>,
        commit_qc: Option<QuorumCertificate>,
        view_number: ViewId,
        shard: Shard,
    ) -> (r: HotStuffMessage<P>)
        ensures
            r.spec_message_type() == HotStuffMessageType::Decide,
            r.spec_view_number() == view_number,
            r.spec_shard() == shard,
            r.spec_justify() == commit_qc,
            r.spec_node() == node,
            r.spec_node_hashes() is None,
            r.spec_partial_sig() is None,
            (node matches Some(n) ==> n.well_formed()) && (commit_qc matches Some(qc)
                ==> qc.well_formed()) ==> r.well_formed(),
    {
        HotStuffMessage {
            message_type: HotStuffMessageType::Decide,
            node,
            justify: commit_qc,
            view_number,
            shard,
            partial_sig: None,
            checkpoint_signature: None,
            node_hashes: None,
        }
    }

    /// The digest a partial signature over this message covers.
    pub fn create_signature_challenge(&self) -> (r: Vec<u8>)
        requires
            self.well_formed(),
        ensures
            r@ == blake256_of(
                spec_challenge_preimage(
                    self.spec_message_type(),
                    self.spec_view_number().0,
                    self.spec_node_part(),
                ),
            ),
    {
        let mut preimage: Vec<u8> = Vec::new();
        preimage.push(self.message_type.as_u8());
        let view_bytes = u64_to_le_bytes(self.view_number.0);
        extend_bytes(&mut preimage, view_bytes.as_slice());
        let ghost header = seq![
            message_type_u8(self.message_type),
        ] + spec_u64_to_le_bytes(self.view_number.0);
        proof {
            assert(preimage@ =~= header);
        }
        match &self.node {
            Some(node) => {
                let node_hash = node.calculate_hash();
                extend_bytes(&mut preimage, node_hash.as_bytes());
            },
            None => {
                match &self.node_hashes {
                    Some(map) => {
                        let len_bytes = u64_to_le_bytes(map.len() as u64);
                        extend_bytes(&mut preimage, len_bytes.as_slice());
                        let ghost entries = map@;
                        let mut i: usize = 0;
                        while i < map.len()
                            invariant
                                i <= entries.len(),
                                map@ == entries,
                                map.well_formed(),
                                preimage@ == header + spec_u64_to_le_bytes(entries.len() as u64)
                                    + spec_vote_entries_encoding(entries.take(i as int)),
                            decreases entries.len() - i,
                        {
                            let shard = map.shard_at(i);
                            let id_bytes = u64_to_le_bytes(shard.id);
                            extend_bytes(&mut preimage, id_bytes.as_slice());
                            let hash = map.hash_at(i);
                            extend_bytes(&mut preimage, hash.as_bytes());
                            i = i + 1;
                            proof {
                                assert(entries.take(i as int).drop_last() =~= entries.take(
                                    i as int - 1,
                                ));
                                assert(entries.take(i as int).last() == entries[i as int - 1]);
                            }
                        }
                        proof {
                            assert(entries.take(entries.len() as int) =~= entries);
                        }
                    },
                    None => {},
                }
            },
        }
        proof {
            assert(preimage@ =~= spec_challenge_preimage(
                self.spec_message_type(),
                self.spec_view_number().0,
                self.spec_node_part(),
            ));
        }
        blake256(&preimage)
    }

    pub fn view_number(&self) -> (r: ViewId)
        ensures
            r == self.spec_view_number(),
    {
        self.view_number
    }

    /// The digest a vote with the given round and hash map signs: what a
    /// validator's partial signature on such a vote must cover.
    pub fn vote_challenge(
        message_type: HotStuffMessageType,
        view_id: ViewId,
        map: &ShardHashMap,
    ) -> (r: Vec<u8>)
        requires
            map.well_formed(),
        ensures
            r@ == blake256_of(
                spec_challenge_preimage(
                    message_type,
                    view_id.0,
                    spec_u64_to_le_bytes(map@.len() as u64) + spec_vote_entries_encoding(map@),
                ),
            ),
    {
        let mut preimage: Vec<u8> = Vec::new();
        preimage.push(message_type.as_u8());
        let view_bytes = u64_to_le_bytes(view_id.0);
        extend_bytes(&mut preimage, view_bytes.as_slice());
        let ghost header = seq![message_type_u8(message_type)] + spec_u64_to_le_bytes(view_id.0);
        proof {
            assert(preimage@ =~= header);
        }
        let len_bytes = u64_to_le_bytes(map.len() as u64);
        extend_bytes(&mut preimage, len_bytes.as_slice());
        let ghost entries = map@;
        let mut i: usize = 0;
        while i < map.len()
            invariant
                i <= entries.len(),
                map@ == entries,
                map.well_formed(),
                preimage@ == header + spec_u64_to_le_bytes(entries.len() as u64)
                    + spec_vote_entries_encoding(entries.take(i as int)),
            decreases entries.len() - i,
        {
            let shard = map.shard_at(i);
            let id_bytes = u64_to_le_bytes(shard.id);
            extend_bytes(&mut preimage, id_bytes.as_slice());
            let hash = map.hash_at(i);
            extend_bytes(&mut preimage, hash.as_bytes());
            i = i + 1;
            proof {
                assert(entries.take(i as int).drop_last() =~= entries.take(i as int - 1));
                assert(entries.take(i as int).last() == entries[i as int - 1]);
            }
        }
        proof {
            assert(entries.take(entries.len() as int) =~= entries);
            assert(preimage@ =~= spec_challenge_preimage(
                message_type,
                view_id.0,
                spec_u64_to_le_bytes(entries.len() as u64) + spec_vote_entries_encoding(entries),
            ));
        }
        blake256(&preimage)
    }

    pub fn shard(&self) -> (r: Shard)
        ensures
            r == self.spec_shard(),
    {
        self.shard
    }

    pub fn node(&self) -> (r: Option<&HotStuffTreeNode<P>>)
        ensures
            (r matches Some(n) ==> self.spec_node() == Some(*n)),
            r is Some <==> self.spec_node() is Some,
    {
        self.node.as_ref()
    }

    pub fn node_hashes(&self) -> (r: Option<&ShardHashMap>)
        ensures
            (r matches Some(m) ==> self.spec_node_hashes() == Some(m@)),
            r is Some <==> self.spec_node_hashes() is Some,
    {
        self.node_hashes.as_ref()
    }

    pub fn message_type(&self) -> (r: HotStuffMessageType)
        ensures
            r == self.spec_message_type(),
    {
        self.message_type
    }

    pub fn justify(&self) -> (r: Option<&QuorumCertificate>)
        ensures
            (r matches Some(qc) ==> self.spec_justify() == Some(*qc)),
            r is Some <==> self.spec_justify() is Some,
    {
        self.justify.as_ref()
    }

    /// True when this message belongs to the given round.
    pub fn matches(&self, message_type: HotStuffMessageType, view_id: ViewId) -> (r: bool)
        ensures
            r == (self.spec_message_type() == message_type && self.spec_view_number() == view_id),
    {
        self.message_type == message_type && self.view_number.0 == view_id.0
    }

    pub fn add_partial_sig(&mut self, signature: ValidatorSignature)
        ensures
            final(self).spec_partial_sig() == Some(signature),
            final(self).spec_view_number() == old(self).spec_view_number(),
            final(self).spec_shard() == old(self).spec_shard(),
            final(self).spec_message_type() == old(self).spec_message_type(),
            final(self).spec_justify() == old(self).spec_justify(),
            final(self).spec_node() == old(self).spec_node(),
            final(self).spec_node_hashes() == old(self).spec_node_hashes(),
            final(self).spec_node_part() == old(self).spec_node_part(),
            old(self).well_formed() ==> final(self).well_formed(),
    {
        self.partial_sig = Some(signature)
    }

    pub fn partial_sig(&self) -> (r: Option<&ValidatorSignature>)
        ensures
            (r matches Some(s) ==> self.spec_partial_sig() == Some(*s)),
            r is Some <==> self.spec_partial_sig() is Some,
    {
        self.partial_sig.as_ref()
    }

    pub fn checkpoint_signature(&self) -> (r: Option<&SignerSignature>) {
        self.checkpoint_signature.as_ref()
    }
}

} // verus!
