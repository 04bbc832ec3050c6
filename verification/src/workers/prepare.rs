use vstd::prelude::*;
use crate::errors::DigitalAssetError;
use crate::models::committee::{Committee, NodeAddress};
use crate::models::hot_stuff_message::HotStuffMessage;
use crate::models::hot_stuff_tree_node::HotStuffTreeNode;
use crate::models::merged_vote_builder::MergedVoteBuilder;
use crate::models::payload::Payload;
use crate::models::quorum_certificate::QuorumCertificate;
use crate::models::shard::Shard;
use crate::models::shard_hash_map::{entries_contain, entries_value};
use crate::models::tree_node_hash::TreeNodeHash;
use crate::models::view::View;
use crate::models::view_id::ViewId;
use vstd::view::View as _;
use crate::services::committee_manager::{committee_members, CommitteeManager};
use crate::services::payload_processor::{spec_state_root_after, PayloadProcessor};
use crate::services::signing::SigningService;
use crate::storage::chain_db::ChainDbUnitOfWork;
use crate::storage::state_db::StateDbUnitOfWork;

verus! {

/// True when `a` sits in `msgs` as a sender.
pub open spec fn senders_contain<P: Payload>(
    msgs: Seq<(NodeAddress, HotStuffMessage<P>)>,
    a: NodeAddress,
) -> bool {
    exists|i: int| #![auto] 0 <= i < msgs.len() && msgs[i].0 == a
}

/// The highest-view justify certificate among the received messages: a
/// strictly greater view replaces the incumbent, an equal view does not
/// ("latest known" policy).
pub open spec fn spec_highest_qc<P: Payload>(
    msgs: Seq<(NodeAddress, HotStuffMessage<P>)>,
) -> Option<QuorumCertificate>
    decreases msgs.len(),
{
    if msgs.len() == 0 {
        None
    } else {
        let rest = spec_highest_qc(msgs.drop_last());
        let last = msgs.last().1.spec_justify();
        match rest {
            None => last,
            Some(qc) => match last {
                None => Some(qc),
                Some(j) => if qc.spec_view_number().0 < j.spec_view_number().0 {
                    Some(j)
                } else {
                    Some(qc)
                },
            },
        }
    }
}

/// True when `a` sits on the committee of a shard that one of the payload's
/// keys routes to.
pub open spec fn addr_in_payload_committees(
    cm: CommitteeManager,
    keys: Seq<Seq<u8>>,
    a: NodeAddress,
) -> bool {
    exists|i: int| #![auto]
        0 <= i < keys.len() && committee_members(
            cm.spec_committees(),
            cm.spec_key_shard(keys[i])->0,
        ).contains(a)
}

/// Every key of the payload routes to a shard with a known committee.
pub open spec fn payload_keys_resolved(cm: CommitteeManager, keys: Seq<Seq<u8>>) -> bool {
    forall|i: int| #![auto]
        0 <= i < keys.len() ==> (cm.spec_key_shard(keys[i]) is Some
            && crate::services::committee_manager::committees_contain(
            cm.spec_committees(),
            cm.spec_key_shard(keys[i])->0,
        ))
}

/// Every key of the payload routes to some shard.
pub open spec fn payload_keys_routed(cm: CommitteeManager, keys: Seq<Seq<u8>>) -> bool {
    forall|i: int| #![auto] 0 <= i < keys.len() ==> cm.spec_key_shard(keys[i]) is Some
}

/// One of the payload's keys routes to shard id `id`.
pub open spec fn payload_involves_shard(cm: CommitteeManager, keys: Seq<Seq<u8>>, id: u64) -> bool {
    exists|i: int| #![auto] 0 <= i < keys.len() && cm.spec_key_shard(keys[i]) == Some(id)
}

/// The HotStuff safety rule against the locked certificate, per-shard: the
/// node extends what the lock references for this shard, or the justify's
/// view is strictly newer than the lock's, or the lock is still the genesis
/// anchor.
pub open spec fn spec_safe_node(
    node_parent: Seq<u8>,
    justify_view: u64,
    locked: QuorumCertificate,
    shard_id: u64,
) -> bool {
    ||| locked.spec_message_type()
        == crate::models::hot_stuff_message_type::HotStuffMessageType::Genesis
    ||| (entries_contain(locked.spec_node_hashes(), shard_id) && node_parent == entries_value(
        locked.spec_node_hashes(),
        shard_id,
    ))
    ||| justify_view > locked.spec_view_number().0
}

/// Among intact messages, the highest justify certificate is intact too.
proof fn lemma_highest_qc_wf<P: Payload>(msgs: Seq<(NodeAddress, HotStuffMessage<P>)>)
    requires
        forall|i: int| #![auto] 0 <= i < msgs.len() ==> msgs[i].1.well_formed(),
    ensures
        spec_highest_qc(msgs) matches Some(qc) ==> qc.well_formed(),
    decreases msgs.len(),
{
    if msgs.len() > 0 {
        lemma_highest_qc_wf(msgs.drop_last());
        assert(msgs.last() == msgs[msgs.len() - 1]);
    }
}

/// What the Prepare leader branch decided.
#[derive(Debug)]
pub enum LeaderPrepareAction<P: Payload> {
    /// Message ignored or threshold not yet reached; nothing to send.
    WaitingForMoreVotes,
    /// Threshold reached: broadcast this proposal to the involved node set.
    BroadcastProposal { recipients: Vec<NodeAddress>, message: HotStuffMessage<P> },
}

/// What the Prepare replica branch decided.
#[derive(Debug)]
pub enum ReplicaPrepareAction<P: Payload> {
    /// Protocol noise dropped, or the vote was withheld; nothing changes.
    Ignored,
    /// The shard's hash was recorded; other involved shards are still owed.
    WaitingForOtherShards,
    /// Every involved shard agreed: send this signed vote to the view leader
    /// and report the phase as prepared.
    SendVoteToLeader { to: NodeAddress, message: HotStuffMessage<P> },
}

/// The Prepare phase handler for one node of one shard. Leaders accumulate
/// `NewView` messages until threshold and then propose; replicas validate a
/// proposal, merge per-shard votes, and answer the leader with a signed
/// vote.
pub struct Prepare<P: Payload> {
    pub node_id: NodeAddress,
    pub shard: Shard,
    pub received_new_view_messages: Vec<(NodeAddress, HotStuffMessage<P>)>,
    pub merged_vote_builder: MergedVoteBuilder,
}

impl<P: Payload> Prepare<P> {
    /// Senders are counted at most once and every stored message is intact.
    pub open spec fn well_formed(&self) -> bool {
        &&& forall|i: int, j: int|
            0 <= i < j < self.received_new_view_messages@.len()
                ==> self.received_new_view_messages@[i].0 != self.received_new_view_messages@[j].0
        &&& forall|i: int| #![auto]
            0 <= i < self.received_new_view_messages@.len()
                ==> self.received_new_view_messages@[i].1.well_formed()
        &&& self.merged_vote_builder.well_formed()
    }

    pub fn new(node_id: NodeAddress, shard: Shard) -> (r: Prepare<P>)
        ensures
            r.well_formed(),
            r.node_id == node_id,
            r.shard == shard,
            r.received_new_view_messages@.len() == 0,
            r.merged_vote_builder@.len() == 0,
    {
        Prepare {
            node_id,
            shard,
            received_new_view_messages: Vec::new(),
            merged_vote_builder: MergedVoteBuilder::new(),
        }
    }

    /// Forgets all per-view state; a phase never carries state across views.
    pub fn clear(&mut self)
        ensures
            final(self).well_formed(),
            final(self).node_id == old(self).node_id,
            final(self).shard == old(self).shard,
            final(self).received_new_view_messages@.len() == 0,
            final(self).merged_vote_builder@.len() == 0,
    {
        self.received_new_view_messages = Vec::new();
        self.merged_vote_builder = MergedVoteBuilder::new();
    }

    fn contains_sender(&self, sender: &NodeAddress) -> (r: bool)
        ensures
            r == senders_contain(self.received_new_view_messages@, *sender),
    {
        let mut i: usize = 0;
        while i < self.received_new_view_messages.len()
            invariant
                i <= self.received_new_view_messages@.len(),
                forall|j: int|
                    0 <= j < i ==> self.received_new_view_messages@[j].0 != *sender,
            decreases self.received_new_view_messages@.len() - i,
        {
            if self.received_new_view_messages[i].0.0 == sender.0 {
                proof {
                    assert(senders_contain(self.received_new_view_messages@, *sender));
                }
                return true;
            }
            i = i + 1;
        }
        proof {
            assert(!senders_contain(self.received_new_view_messages@, *sender));
        }
        false
    }

    /// The highest-view justify among the accumulated messages, as a fresh
    /// certificate.
    fn find_highest_qc(&self) -> (r: Option<QuorumCertificate>)
        ensures
            r is Some <==> spec_highest_qc(self.received_new_view_messages@) is Some,
            r matches Some(qc) ==> qc.model() == spec_highest_qc(
                self.received_new_view_messages@,
            )->0.model(),
            r matches Some(qc) ==> (spec_highest_qc(
                self.received_new_view_messages@,
            )->0.well_formed() ==> qc.well_formed()),
    {
        let ghost msgs = self.received_new_view_messages@;
        let mut max_qc: Option<&QuorumCertificate> = None;
        let mut i: usize = 0;
        while i < self.received_new_view_messages.len()
            invariant
                i <= msgs.len(),
                msgs == self.received_new_view_messages@,
                max_qc is Some <==> spec_highest_qc(msgs.take(i as int)) is Some,
                max_qc matches Some(qc) ==> *qc == spec_highest_qc(msgs.take(i as int))->0,
            decreases msgs.len() - i,
        {
            proof {
                assert(msgs.take(i as int + 1).drop_last() =~= msgs.take(i as int));
                assert(msgs.take(i as int + 1).last() == msgs[i as int]);
            }
            match self.received_new_view_messages[i].1.justify() {
                Some(justify) => {
                    match max_qc {
                        None => {
                            max_qc = Some(justify);
                        },
                        Some(qc) => {
                            if qc.view_number().0 < justify.view_number().0 {
                                max_qc = Some(justify);
                            }
                        },
                    }
                },
                None => {},
            }
            i = i + 1;
        }
        proof {
            assert(msgs.take(msgs.len() as int) =~= msgs);
        }
        match max_qc {
            Some(qc) => Some(qc.duplicate()),
            None => None,
        }
    }

    /// When a `NewView` message is counted: its sender sits on the current
    /// committee and has not been counted this view.
    pub open spec fn spec_accepts(&self, sender: NodeAddress, cm: CommitteeManager) -> bool {
        &&& !senders_contain(self.received_new_view_messages@, sender)
        &&& crate::services::committee_manager::committees_contain(
            cm.spec_committees(),
            cm.spec_current_shard().id,
        )
        &&& committee_members(cm.spec_committees(), cm.spec_current_shard().id).contains(sender)
    }

    /// The received messages after one more is counted.
    pub open spec fn spec_after_insert(
        &self,
        sender: NodeAddress,
        message: HotStuffMessage<P>,
    ) -> Seq<(NodeAddress, HotStuffMessage<P>)> {
        self.received_new_view_messages@.push((sender, message))
    }

    /// Counts one inbound `NewView` message toward this leader's threshold;
    /// at threshold, builds the proposal extending the highest justify seen
    /// and says whom to broadcast it to.
    ///
    /// Counting is exactly-once per sender and per view: a sender already
    /// counted, or one outside the current committee, changes nothing.
    pub fn process_leader_message(
        &mut self,
        current_view: &View,
        message: HotStuffMessage<P>,
        sender: &NodeAddress,
        previous_committee: &Committee,
        committee_manager: &CommitteeManager,
        payload: &P,
        payload_processor: &PayloadProcessor,
        temp_state: &mut StateDbUnitOfWork,
    ) -> (r: Result<LeaderPrepareAction<P>, DigitalAssetError>)
        requires
            old(self).well_formed(),
            committee_manager.well_formed(),
            previous_committee.members@.len() > 0,
            message.well_formed(),
        ensures
            final(self).well_formed(),
            final(self).node_id == old(self).node_id,
            final(self).shard == old(self).shard,
            final(self).merged_vote_builder@ == old(self).merged_vote_builder@,
            senders_contain(old(self).received_new_view_messages@, *sender) ==> ((
            r matches Ok(a) && a is WaitingForMoreVotes)
                && final(self).received_new_view_messages@ == old(self).received_new_view_messages@),
            (!senders_contain(old(self).received_new_view_messages@, *sender)
                && !crate::services::committee_manager::committees_contain(
                committee_manager.spec_committees(),
                committee_manager.spec_current_shard().id,
            )) ==> (r == Result::<LeaderPrepareAction<P>, DigitalAssetError>::Err(
                DigitalAssetError::MissingShardCommittee,
            ) && final(self).received_new_view_messages@ == old(self).received_new_view_messages@),
            (!senders_contain(old(self).received_new_view_messages@, *sender)
                && crate::services::committee_manager::committees_contain(
                committee_manager.spec_committees(),
                committee_manager.spec_current_shard().id,
            ) && !committee_members(
                committee_manager.spec_committees(),
                committee_manager.spec_current_shard().id,
            ).contains(*sender)) ==> ((r matches Ok(a) && a is WaitingForMoreVotes) && final(self).received_new_view_messages@ == old(self).received_new_view_messages@),
            old(self).spec_accepts(*sender, *committee_manager) ==> final(self).received_new_view_messages@ == old(self).spec_after_insert(*sender, message),
            (old(self).spec_accepts(*sender, *committee_manager) && old(self).received_new_view_messages@.len() + 1
                < previous_committee.spec_consensus_threshold()) ==> (r matches Ok(a)
                && a is WaitingForMoreVotes),
            (old(self).spec_accepts(*sender, *committee_manager) && old(self).received_new_view_messages@.len() + 1
                >= previous_committee.spec_consensus_threshold() && spec_highest_qc(
                old(self).spec_after_insert(*sender, message),
            ) is None) ==> r == Result::<LeaderPrepareAction<P>, DigitalAssetError>::Err(
                DigitalAssetError::PreparePhaseNoQuorumCertificate,
            ),
            (old(self).spec_accepts(*sender, *committee_manager) && old(self).received_new_view_messages@.len() + 1
                >= previous_committee.spec_consensus_threshold() && (spec_highest_qc(
                old(self).spec_after_insert(*sender, message),
            ) matches Some(hqc) && !entries_contain(hqc.spec_node_hashes(), old(self).shard.id)))
                ==> r == Result::<LeaderPrepareAction<P>, DigitalAssetError>::Err(
                DigitalAssetError::JustifyMissingShardHash,
            ),
            (old(self).spec_accepts(*sender, *committee_manager) && old(self).received_new_view_messages@.len() + 1
                >= previous_committee.spec_consensus_threshold() && (spec_highest_qc(
                old(self).spec_after_insert(*sender, message),
            ) matches Some(hqc) && entries_contain(hqc.spec_node_hashes(), old(self).shard.id))
                && !payload_keys_resolved(*committee_manager, payload.spec_shard_keys())) ==> r
                == Result::<LeaderPrepareAction<P>, DigitalAssetError>::Err(
                DigitalAssetError::MissingShardCommittee,
            ),
            (old(self).spec_accepts(*sender, *committee_manager) && old(self).received_new_view_messages@.len() + 1
                >= previous_committee.spec_consensus_threshold() && (spec_highest_qc(
                old(self).spec_after_insert(*sender, message),
            ) matches Some(hqc) && entries_contain(hqc.spec_node_hashes(), old(self).shard.id))
                && payload_keys_resolved(*committee_manager, payload.spec_shard_keys())) ==> (
            r matches Ok(a) && a matches LeaderPrepareAction::BroadcastProposal {
                recipients,
                message: m,
            } && {
                let hqc = spec_highest_qc(old(self).spec_after_insert(*sender, message))->0;
                &&& m.spec_message_type()
                    == crate::models::hot_stuff_message_type::HotStuffMessageType::Prepare
                &&& m.spec_view_number() == current_view.view_id
                &&& m.spec_shard() == old(self).shard
                &&& (m.spec_justify() matches Some(j) && j.model() == hqc.model())
                &&& (m.spec_node() matches Some(n) && {
                    &&& n.well_formed()
                    &&& n.spec_parent() == entries_value(
                        hqc.spec_node_hashes(),
                        old(self).shard.id,
                    )
                    &&& n.spec_payload().spec_hash() == payload.spec_hash()
                    &&& n.spec_payload().spec_is_empty() == payload.spec_is_empty()
                    &&& n.spec_payload().spec_shard_keys() == payload.spec_shard_keys()
                    &&& n.spec_state_root() == spec_state_root_after(
                        old(temp_state).state_root@,
                        payload.spec_hash(),
                    )
                    &&& n.spec_height() == current_view.view_id.0 as u32
                })
                &&& (forall|k: int| #![auto]
                    0 <= k < recipients@.len() ==> addr_in_payload_committees(
                        *committee_manager,
                        payload.spec_shard_keys(),
                        recipients@[k],
                    ))
                &&& (forall|i: int, m2: int| #![auto]
                    (0 <= i < payload.spec_shard_keys().len() && 0 <= m2 < committee_members(
                        committee_manager.spec_committees(),
                        committee_manager.spec_key_shard(payload.spec_shard_keys()[i])->0,
                    ).len()) ==> recipients@.contains(
                        committee_members(
                            committee_manager.spec_committees(),
                            committee_manager.spec_key_shard(payload.spec_shard_keys()[i])->0,
                        )[m2],
                    ))
                &&& (forall|k: int, l: int|
                    0 <= k < l < recipients@.len() ==> recipients@[k] != recipients@[l])
            }),
    {
        let ghost pre = self.received_new_view_messages@;
        if self.contains_sender(sender) {
            return Ok(LeaderPrepareAction::WaitingForMoreVotes);
        }
        let committee = match committee_manager.current_committee() {
            Ok(c) => c,
            Err(e) => {
                return Err(e);
            },
        };
        if !committee.contains(sender) {
            return Ok(LeaderPrepareAction::WaitingForMoreVotes);
        }
        self.received_new_view_messages.push((*sender, message));
        proof {
            assert(forall|j: int| #![auto]
                0 <= j < pre.len() ==> self.received_new_view_messages@[j] == pre[j]);
        }
        let threshold = previous_committee.consensus_threshold();
        if self.received_new_view_messages.len() < threshold {
            return Ok(LeaderPrepareAction::WaitingForMoreVotes);
        }
        proof {
            lemma_highest_qc_wf(self.received_new_view_messages@);
        }
        let high_qc = match self.find_highest_qc() {
            Some(qc) => qc,
            None => {
                return Err(DigitalAssetError::PreparePhaseNoQuorumCertificate);
            },
        };
        let parent = match high_qc.node_hash(self.shard) {
            Some(h) => h.duplicate(),
            None => {
                return Err(DigitalAssetError::JustifyMissingShardHash);
            },
        };
        let keys = payload.involved_shard_keys();
        proof {
            assert forall|i: int| #![auto] 0 <= i < keys@.len() implies keys@[i]@
                == payload.spec_shard_keys()[i] by {}
        }
        let recipients = match committee_manager.get_node_set_for_shards(&keys) {
            Ok(nodes) => nodes,
            Err(e) => {
                proof {
                    if payload_keys_resolved(*committee_manager, payload.spec_shard_keys()) {
                        assert forall|i: int| #![auto] 0 <= i < keys@.len() implies (
                        committee_manager.spec_key_shard(keys@[i]@) is Some
                            && crate::services::committee_manager::committees_contain(
                            committee_manager.spec_committees(),
                            committee_manager.spec_key_shard(keys@[i]@)->0,
                        )) by {
                            assert(keys@[i]@ == payload.spec_shard_keys()[i]);
                        }
                        assert(false);
                    }
                }
                return Err(e);
            },
        };
        proof {
            assert(payload_keys_resolved(*committee_manager, payload.spec_shard_keys()));
            assert forall|k: int| #![auto] 0 <= k < recipients@.len() implies
                addr_in_payload_committees(
                *committee_manager,
                payload.spec_shard_keys(),
                recipients@[k],
            ) by {
                let i = choose|i: int| #![auto]
                    0 <= i < keys@.len() && committee_members(
                        committee_manager.spec_committees(),
                        committee_manager.spec_key_shard(keys@[i]@)->0,
                    ).contains(recipients@[k]);
                assert(keys@[i]@ == payload.spec_shard_keys()[i]);
            }
        }
        let node = match self.create_proposal(
            parent,
            payload,
            payload_processor,
            current_view.view_id,
            temp_state,
        ) {
            Ok(n) => n,
            Err(e) => {
                return Err(e);
            },
        };
        let proposal_message = HotStuffMessage::prepare(
            node,
            Some(high_qc),
            current_view.view_id(),
            self.shard,
        );
        Ok(LeaderPrepareAction::BroadcastProposal { recipients, message: proposal_message })
    }

    /// True when `node` extends `from`: its parent hash equals `from`.
    fn does_extend(&self, node: &HotStuffTreeNode<P>, from: &TreeNodeHash) -> (r: bool)
        ensures
            r == (node.spec_parent() == from@),
    {
        crate::bytes_util::eq_bytes(&node.parent().0, &from.0)
    }

    /// The HotStuff safety rule against the locked certificate.
    fn is_safe_node(
        &self,
        node: &HotStuffTreeNode<P>,
        quorum_certificate: &QuorumCertificate,
        chain_tx: &mut ChainDbUnitOfWork,
    ) -> (r: Result<bool, DigitalAssetError>)
        requires
            old(chain_tx).well_formed(),
        ensures
            *final(chain_tx) == *old(chain_tx),
            r matches Ok(b) && b == spec_safe_node(
                node.spec_parent(),
                quorum_certificate.spec_view_number().0,
                old(chain_tx).locked_qc,
                self.shard.id,
            ),
    {
        let locked_qc = match chain_tx.get_locked_qc() {
            Ok(qc) => qc,
            Err(e) => {
                return Err(e);
            },
        };
        let is_genesis = locked_qc.message_type().as_u8() == 255;
        if is_genesis {
            proof {
                crate::models::hot_stuff_message_type::lemma_message_type_round_trip(
                    locked_qc.spec_message_type(),
                    crate::models::hot_stuff_message_type::HotStuffMessageType::Genesis,
                );
            }
            return Ok(true);
        }
        let extends_lock = match locked_qc.node_hash(self.shard) {
            Some(h) => self.does_extend(node, h),
            None => false,
        };
        Ok(extends_lock || quorum_certificate.view_number().0 > locked_qc.view_number().0)
    }

    /// A proposal that carries what a proposal must carry: a node with a
    /// non-empty payload, and a justify certificate.
    pub open spec fn spec_proposal_basics(message: HotStuffMessage<P>) -> bool {
        &&& message.spec_node() is Some
        &&& !message.spec_node()->0.spec_payload().spec_is_empty()
        &&& message.spec_justify() is Some
    }

    /// When a replica takes a proposal at all: the payload's keys route,
    /// the message's shard and this node's shard are both involved, for our
    /// own shard only the view leader may propose, and the sender sits on
    /// the named shard's committee.
    pub open spec fn spec_replica_gates(
        &self,
        message: HotStuffMessage<P>,
        from: NodeAddress,
        view_leader: NodeAddress,
        cm: CommitteeManager,
    ) -> bool {
        let keys = message.spec_node()->0.spec_payload().spec_shard_keys();
        &&& Self::spec_proposal_basics(message)
        &&& payload_keys_routed(cm, keys)
        &&& payload_involves_shard(cm, keys, message.spec_shard().id)
        &&& payload_involves_shard(cm, keys, self.shard.id)
        &&& !(message.spec_shard() == self.shard && from != view_leader)
        &&& crate::services::committee_manager::committees_contain(
            cm.spec_committees(),
            message.spec_shard().id,
        )
        &&& committee_members(cm.spec_committees(), message.spec_shard().id).contains(from)
    }

    /// The three own-shard acceptance checks a replica makes before it will
    /// count a proposal: chain extension against the justify, the HotStuff
    /// safety rule against the lock, and the recomputed state root.
    pub open spec fn spec_own_shard_accepts(
        &self,
        message: HotStuffMessage<P>,
        cm: CommitteeManager,
        locked: QuorumCertificate,
        prior_root: Seq<u8>,
    ) -> bool {
        let node = message.spec_node()->0;
        let justify = message.spec_justify()->0;
        &&& entries_contain(justify.spec_node_hashes(), cm.spec_current_shard().id)
        &&& node.spec_parent() == entries_value(
            justify.spec_node_hashes(),
            cm.spec_current_shard().id,
        )
        &&& spec_safe_node(
            node.spec_parent(),
            justify.spec_view_number().0,
            locked,
            self.shard.id,
        )
        &&& spec_state_root_after(prior_root, node.spec_payload().spec_hash())
            == node.spec_state_root()
    }

    /// Validates a leader proposal, records this shard's hash, and — once
    /// every involved shard has agreed — answers the view leader with a
    /// signed vote over the merged hash set.
    ///
    /// A proposal whose parent does not equal what its justify certificate
    /// references for this shard is refused and never voted for; so is one
    /// that breaks the safety rule against the locked certificate. A state
    /// root that does not match the recomputation withholds the vote
    /// silently.
    pub fn process_replica_message(
        &mut self,
        message: &HotStuffMessage<P>,
        current_view: &View,
        from: &NodeAddress,
        view_leader: &NodeAddress,
        signing_service: &SigningService,
        committee_manager: &CommitteeManager,
        chain_tx: &mut ChainDbUnitOfWork,
        state_tx: &mut StateDbUnitOfWork,
    ) -> (r: Result<ReplicaPrepareAction<P>, DigitalAssetError>)
        requires
            old(self).well_formed(),
            committee_manager.well_formed(),
            message.well_formed(),
            old(chain_tx).well_formed(),
        ensures
            final(self).well_formed(),
            final(self).node_id == old(self).node_id,
            final(self).shard == old(self).shard,
            final(self).received_new_view_messages@ == old(self).received_new_view_messages@,
            final(chain_tx).well_formed(),
            message.spec_node() is None ==> ((r matches Ok(a) && a is Ignored) && final(self).merged_vote_builder@ == old(self).merged_vote_builder@),
            (message.spec_node() is Some
                && message.spec_node()->0.spec_payload().spec_is_empty()) ==> ((r matches Ok(a)
                && a is Ignored) && final(self).merged_vote_builder@ == old(self).merged_vote_builder@),
            (message.spec_node() is Some
                && !message.spec_node()->0.spec_payload().spec_is_empty()
                && message.spec_justify() is None) ==> r == Result::<
                ReplicaPrepareAction<P>,
                DigitalAssetError,
            >::Err(DigitalAssetError::PreparePhaseNoQuorumCertificate),
            (Self::spec_proposal_basics(*message) && !payload_keys_routed(
                *committee_manager,
                message.spec_node()->0.spec_payload().spec_shard_keys(),
            )) ==> r == Result::<ReplicaPrepareAction<P>, DigitalAssetError>::Err(
                DigitalAssetError::MissingShardCommittee,
            ),
            (Self::spec_proposal_basics(*message) && payload_keys_routed(
                *committee_manager,
                message.spec_node()->0.spec_payload().spec_shard_keys(),
            ) && (!payload_involves_shard(
                *committee_manager,
                message.spec_node()->0.spec_payload().spec_shard_keys(),
                message.spec_shard().id,
            ) || !payload_involves_shard(
                *committee_manager,
                message.spec_node()->0.spec_payload().spec_shard_keys(),
                old(self).shard.id,
            ))) ==> r == Result::<ReplicaPrepareAction<P>, DigitalAssetError>::Err(
                DigitalAssetError::MessageReceivedForWrongShard,
            ),
            (old(self).spec_replica_gates(*message, *from, *view_leader, *committee_manager)
                && message.spec_shard() == old(self).shard && !old(self).spec_own_shard_accepts(
                *message,
                *committee_manager,
                old(chain_tx).locked_qc,
                old(state_tx).state_root@,
            )) ==> ((r is Err || (r matches Ok(a) && a is Ignored)) && final(self).merged_vote_builder@ == old(self).merged_vote_builder@),
            (old(self).spec_replica_gates(*message, *from, *view_leader, *committee_manager)
                && message.spec_shard() == old(self).shard && Self::spec_proposal_basics(*message)
                && entries_contain(
                message.spec_justify()->0.spec_node_hashes(),
                committee_manager.spec_current_shard().id,
            ) && message.spec_node()->0.spec_parent() != entries_value(
                message.spec_justify()->0.spec_node_hashes(),
                committee_manager.spec_current_shard().id,
            )) ==> r == Result::<ReplicaPrepareAction<P>, DigitalAssetError>::Err(
                DigitalAssetError::PreparePhaseCertificateDoesNotExtendNode,
            ),
            r matches Ok(a) ==> (a matches ReplicaPrepareAction::SendVoteToLeader {
                to,
                message: m,
            } ==> {
                &&& to == *view_leader
                &&& m.spec_message_type()
                    == crate::models::hot_stuff_message_type::HotStuffMessageType::Prepare
                &&& m.spec_view_number() == current_view.view_id
                &&& m.spec_shard() == old(self).shard
                &&& m.spec_node_hashes() is Some
                &&& entries_contain(m.spec_node_hashes()->0, message.spec_shard().id)
                &&& entries_value(m.spec_node_hashes()->0, message.spec_shard().id)
                    == message.spec_node()->0.spec_hash()
                &&& (forall|id: u64|
                    payload_involves_shard(
                        *committee_manager,
                        message.spec_node()->0.spec_payload().spec_shard_keys(),
                        id,
                    ) ==> #[trigger] entries_contain(m.spec_node_hashes()->0, id))
                &&& (m.spec_partial_sig() matches Some(sig) && sig.spec_verifies(
                    old(self).node_id,
                    crate::hashing::blake256_of(
                        crate::models::hot_stuff_message::spec_challenge_preimage(
                            m.spec_message_type(),
                            m.spec_view_number().0,
                            m.spec_node_part(),
                        ),
                    ),
                ))
                &&& final(self).merged_vote_builder@.len() == 0
            }),
            (r matches Ok(a) && !(a is Ignored) && message.spec_shard() == old(self).shard) ==> (
            old(self).spec_replica_gates(*message, *from, *view_leader, *committee_manager)
                && old(self).spec_own_shard_accepts(
                *message,
                *committee_manager,
                old(chain_tx).locked_qc,
                old(state_tx).state_root@,
            )),
            (old(self).spec_replica_gates(*message, *from, *view_leader, *committee_manager) && (
            message.spec_shard() == old(self).shard ==> old(self).spec_own_shard_accepts(
                *message,
                *committee_manager,
                old(chain_tx).locked_qc,
                old(state_tx).state_root@,
            )) && (!entries_contain(old(self).merged_vote_builder@, message.spec_shard().id)
                || entries_value(old(self).merged_vote_builder@, message.spec_shard().id)
                == message.spec_node()->0.spec_hash())) ==> {
                let complete = forall|id: u64| #![auto]
                    payload_involves_shard(
                        *committee_manager,
                        message.spec_node()->0.spec_payload().spec_shard_keys(),
                        id,
                    ) ==> (entries_contain(old(self).merged_vote_builder@, id) || id
                        == message.spec_shard().id);
                &&& (complete ==> (r matches Ok(a) && a is SendVoteToLeader))
                &&& (!complete ==> (r matches Ok(a) && a is WaitingForOtherShards))
            },
    {
        let node = match message.node() {
            Some(n) => n,
            None => {
                return Ok(ReplicaPrepareAction::Ignored);
            },
        };
        if node.payload().is_empty() {
            return Ok(ReplicaPrepareAction::Ignored);
        }
        let justify = match message.justify() {
            Some(j) => j,
            None => {
                return Err(DigitalAssetError::PreparePhaseNoQuorumCertificate);
            },
        };
        let keys = node.payload().involved_shard_keys();
        proof {
            assert forall|i: int| #![auto] 0 <= i < keys@.len() implies keys@[i]@
                == node.spec_payload().spec_shard_keys()[i] by {}
        }
        let ghost spec_keys = node.spec_payload().spec_shard_keys();
        let involved_shards = match committee_manager.get_shards_for_keys(&keys) {
            Ok(shards) => shards,
            Err(e) => {
                proof {
                    if payload_keys_routed(*committee_manager, spec_keys) {
                        assert forall|i: int| #![auto]
                            0 <= i < keys@.len() implies committee_manager.spec_key_shard(
                            keys@[i]@,
                        ) is Some by {
                            assert(keys@[i]@ == spec_keys[i]);
                        }
                        assert(false);
                    }
                }
                return Err(e);
            },
        };
        proof {
            assert(payload_keys_routed(*committee_manager, spec_keys));
            assert forall|id: u64| #![auto]
                crate::services::committee_manager::seq_contains_shard_id(
                involved_shards@,
                id,
            ) == payload_involves_shard(*committee_manager, spec_keys, id) by {
                if crate::services::committee_manager::seq_contains_shard_id(
                    involved_shards@,
                    id,
                ) {
                    let i = choose|i: int| #![auto]
                        0 <= i < keys@.len() && committee_manager.spec_key_shard(keys@[i]@)
                            == Some(id);
                    assert(keys@[i]@ == spec_keys[i]);
                }
                if payload_involves_shard(*committee_manager, spec_keys, id) {
                    let i = choose|i: int| #![auto]
                        0 <= i < spec_keys.len() && committee_manager.spec_key_shard(spec_keys[i])
                            == Some(id);
                    assert(committee_manager.spec_key_shard(keys@[i]@) == Some(id));
                }
            }
        }
        if !crate::services::committee_manager::contains_shard(&involved_shards, message.shard().id)
        {
            return Err(DigitalAssetError::MessageReceivedForWrongShard);
        }
        if !crate::services::committee_manager::contains_shard(&involved_shards, self.shard.id) {
            return Err(DigitalAssetError::MessageReceivedForWrongShard);
        }
        let own_shard = message.shard().id == self.shard.id;
        if own_shard && from.0 != view_leader.0 {
            return Ok(ReplicaPrepareAction::Ignored);
        }
        let shard_committee = match committee_manager.get_shard_committee(message.shard()) {
            Some(c) => c,
            None => {
                return Err(DigitalAssetError::MissingShardCommittee);
            },
        };
        if !shard_committee.contains(from) {
            return Ok(ReplicaPrepareAction::Ignored);
        }
        if own_shard {
            let current_shard = match committee_manager.current_shard() {
                Ok(s) => s,
                Err(e) => {
                    return Err(e);
                },
            };
            let justify_hash = match justify.node_hash(current_shard) {
                Some(h) => h,
                None => {
                    return Err(DigitalAssetError::JustifyMissingShardHash);
                },
            };
            if !self.does_extend(node, justify_hash) {
                return Err(DigitalAssetError::PreparePhaseCertificateDoesNotExtendNode);
            }
            let safe = match self.is_safe_node(node, justify, chain_tx) {
                Ok(b) => b,
                Err(e) => {
                    return Err(e);
                },
            };
            if !safe {
                return Err(DigitalAssetError::PreparePhaseNodeNotSafe);
            }
            let processor = PayloadProcessor::new();
            let state_root = match processor.process_payload(node.payload(), state_tx) {
                Ok(root) => root,
                Err(e) => {
                    return Err(e);
                },
            };
            if !crate::bytes_util::eq_bytes(&state_root, node.state_root()) {
                return Ok(ReplicaPrepareAction::Ignored);
            }
            match chain_tx.add_node(node.hash(), node.parent()) {
                Ok(_) => {},
                Err(e) => {
                    return Err(e);
                },
            }
        }
        match self.merged_vote_builder.add(message.shard(), node.hash().duplicate()) {
            Ok(_) => {},
            Err(e) => {
                return Err(e);
            },
        }
        if self.merged_vote_builder.is_complete(&involved_shards) {
            let nodes = self.merged_vote_builder.build_and_clear();
            proof {
                assert forall|id: u64|
                    payload_involves_shard(
                        *committee_manager,
                        spec_keys,
                        id,
                    ) implies #[trigger] entries_contain(nodes@, id) by {
                    let k = choose|k: int|
                        0 <= k < involved_shards@.len() && involved_shards@[k].id == id;
                    assert(entries_contain(nodes@, involved_shards@[k].id));
                }
            }
            let vote = match self.send_vote_to_leader(nodes, current_view.view_id, signing_service)
            {
                Ok(m) => m,
                Err(e) => {
                    return Err(e);
                },
            };
            Ok(ReplicaPrepareAction::SendVoteToLeader { to: *view_leader, message: vote })
        } else {
            Ok(ReplicaPrepareAction::WaitingForOtherShards)
        }
    }

    /// Builds the signed vote answering the view leader.
    fn send_vote_to_leader(
        &self,
        nodes: crate::models::shard_hash_map::ShardHashMap,
        view_number: ViewId,
        signing_service: &SigningService,
    ) -> (r: Result<HotStuffMessage<P>, DigitalAssetError>)
        requires
            nodes.well_formed(),
        ensures
            r matches Ok(m) && {
                &&& m.spec_message_type()
                    == crate::models::hot_stuff_message_type::HotStuffMessageType::Prepare
                &&& m.spec_view_number() == view_number
                &&& m.spec_shard() == self.shard
                &&& m.spec_node_hashes() == Some(nodes@)
                &&& m.well_formed()
                &&& (m.spec_partial_sig() matches Some(sig) && sig.spec_verifies(
                    self.node_id,
                    crate::hashing::blake256_of(
                        crate::models::hot_stuff_message::spec_challenge_preimage(
                            m.spec_message_type(),
                            m.spec_view_number().0,
                            m.spec_node_part(),
                        ),
                    ),
                ))
            },
    {
        let mut vote: HotStuffMessage<P> = HotStuffMessage::vote_prepare(
            nodes,
            view_number,
            self.shard,
        );
        let challenge = vote.create_signature_challenge();
        let sig = match signing_service.sign(&self.node_id, &challenge) {
            Ok(s) => s,
            Err(e) => {
                return Err(e);
            },
        };
        vote.add_partial_sig(sig);
        Ok(vote)
    }

    /// Builds the proposal node extending `parent` with the next payload.
    fn create_proposal(
        &self,
        parent: TreeNodeHash,
        payload: &P,
        payload_processor: &PayloadProcessor,
        view_id: ViewId,
        state_db: &mut StateDbUnitOfWork,
    ) -> (r: Result<HotStuffTreeNode<P>, DigitalAssetError>)
        ensures
            r matches Ok(n) ==> n.well_formed() && n.spec_parent() == parent@
                && n.spec_payload().spec_hash() == payload.spec_hash()
                && n.spec_payload().spec_is_empty() == payload.spec_is_empty()
                && n.spec_payload().spec_shard_keys() == payload.spec_shard_keys()
                && n.spec_state_root() == spec_state_root_after(
                old(state_db).state_root@,
                payload.spec_hash(),
            ) && n.spec_height() == view_id.0 as u32,
            r is Ok,
    {
        let state_root = match payload_processor.process_payload(payload, state_db) {
            Ok(root) => root,
            Err(e) => {
                return Err(e);
            },
        };
        let height = #[verifier::truncate] (view_id.0 as u32);
        Ok(HotStuffTreeNode::from_parent(parent, payload.duplicate(), state_root, height))
    }
}

} // verus!
