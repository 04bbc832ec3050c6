use vstd::prelude::*;
use crate::bytes_util::zero_bytes;
use crate::errors::DigitalAssetError;
use crate::hashing::{blake256_of, fresh_signing_secret};
use crate::models::checkpoint::{CheckpointChallenge, SignerSignature};
use crate::models::committee::{Committee, NodeAddress};
use crate::models::hot_stuff_message::{spec_challenge_preimage, HotStuffMessage};
use crate::models::hot_stuff_message_type::HotStuffMessageType;
use crate::models::merged_vote_builder::MergedVoteBuilder;
use crate::models::payload::Payload;
use crate::models::quorum_certificate::QuorumCertificate;
use crate::models::shard::Shard;
use crate::models::shard_hash_map::{entries_contain, entries_value, lemma_sorted_entries_unique, ShardHashMap};
use crate::models::validator_signature::ValidatorSignature;
use crate::models::view::View;
use vstd::view::View as _;
use crate::services::committee_manager::{committee_members, CommitteeManager};
use crate::services::signing::SigningService;
use crate::storage::chain_db::ChainDbUnitOfWork;
use crate::workers::prepare::senders_contain;

verus! {

/// What the Commit leader branch decided.
#[derive(Debug)]
pub enum LeaderCommitAction<P: Payload> {
    /// Message ignored, threshold not reached, or the votes disagreed.
    WaitingForMoreVotes,
    /// Threshold reached on consistent votes: broadcast the certificate to
    /// the committee.
    BroadcastToCommittee { recipients: Vec<NodeAddress>, message: HotStuffMessage<P> },
}

/// What the Commit replica branch decided.
#[derive(Debug)]
pub enum ReplicaCommitAction<P: Payload> {
    /// Protocol noise dropped; nothing changes.
    Ignored,
    /// The certificate was locked: send this signed vote, with its
    /// checkpoint signature, to the view leader and report `Committed`.
    SendVoteToLeader { to: NodeAddress, message: HotStuffMessage<P> },
}

/// The Commit phase handler: aggregates `PreCommit` votes into a
/// certificate as leader, and as replica locks an inbound certificate and
/// answers with a checkpoint-carrying vote.
pub struct CommitState<P: Payload> {
    pub node_id: NodeAddress,
    pub contract_id: Vec<u8>,
    pub shard: Shard,
    pub committee: Committee,
    pub received_new_view_messages: Vec<(NodeAddress, HotStuffMessage<P>)>,
    pub merged_vote_builder: MergedVoteBuilder,
}

/// A counted vote is intact: the message itself is well formed, carries its
/// per-shard hashes, and its partial signature verifies the vote's own
/// challenge for its sender.
pub open spec fn vote_intact<P: Payload>(sender: NodeAddress, msg: HotStuffMessage<P>) -> bool {
    &&& msg.well_formed()
    &&& msg.spec_node_hashes() is Some
    &&& (msg.spec_partial_sig() matches Some(sig) && sig.spec_verifies(
        sender,
        blake256_of(
            spec_challenge_preimage(
                msg.spec_message_type(),
                msg.spec_view_number().0,
                msg.spec_node_part(),
            ),
        ),
    ))
}

/// Two vote maps agree when no shard is bound to two different hashes.
pub open spec fn votes_consistent(a: Seq<(u64, Seq<u8>)>, b: Seq<(u64, Seq<u8>)>) -> bool {
    forall|id: u64| #![auto]
        entries_contain(a, id) && entries_contain(b, id) ==> entries_value(a, id)
            == entries_value(b, id)
}

/// All counted votes pairwise agree on every shard they both cover.
pub open spec fn all_votes_agree<P: Payload>(
    msgs: Seq<(NodeAddress, HotStuffMessage<P>)>,
) -> bool {
    forall|i: int, j: int| #![auto]
        0 <= i < msgs.len() && 0 <= j < msgs.len() ==> votes_consistent(
            msgs[i].1.spec_node_hashes()->0,
            msgs[j].1.spec_node_hashes()->0,
        )
}

impl<P: Payload> CommitState<P> {
    /// Senders are counted at most once, and every counted vote carries its
    /// hashes and a partial signature that verifies the vote's challenge.
    pub open spec fn well_formed(&self) -> bool {
        &&& forall|i: int, j: int|
            0 <= i < j < self.received_new_view_messages@.len()
                ==> self.received_new_view_messages@[i].0 != self.received_new_view_messages@[j].0
        &&& forall|i: int| #![auto]
            0 <= i < self.received_new_view_messages@.len() ==> vote_intact(
                self.received_new_view_messages@[i].0,
                self.received_new_view_messages@[i].1,
            )
        &&& self.merged_vote_builder.well_formed()
    }

    pub fn new(
        node_id: NodeAddress,
        contract_id: Vec<u8>,
        shard: Shard,
        committee: Committee,
    ) -> (r: CommitState<P>)
        ensures
            r.well_formed(),
            r.node_id == node_id,
            r.contract_id@ == contract_id@,
            r.shard == shard,
            r.committee.members@ == committee.members@,
            r.received_new_view_messages@.len() == 0,
            r.merged_vote_builder@.len() == 0,
    {
        CommitState {
            node_id,
            contract_id,
            shard,
            committee,
            received_new_view_messages: Vec::new(),
            merged_vote_builder: MergedVoteBuilder::new(),
        }
    }

    /// Forgets all per-view state.
    pub fn clear(&mut self)
        ensures
            final(self).well_formed(),
            final(self).node_id == old(self).node_id,
            final(self).shard == old(self).shard,
            final(self).contract_id@ == old(self).contract_id@,
            final(self).committee.members@ == old(self).committee.members@,
            final(self).received_new_view_messages@.len() == 0,
            final(self).merged_vote_builder@.len() == 0,
    {
        self.received_new_view_messages = Vec::new();
        self.merged_vote_builder = MergedVoteBuilder::new();
    }

    fn contains_sender(&self, sender: &NodeAddress) -> (r: bool)
        ensures
            r == senders_contain(self.received_new_view_messages@, *sender),
    {
        let mut i: usize = 0;
        while i < self.received_new_view_messages.len()
            invariant
                i <= self.received_new_view_messages@.len(),
                forall|j: int|
                    0 <= j < i ==> self.received_new_view_messages@[j].0 != *sender,
            decreases self.received_new_view_messages@.len() - i,
        {
            if self.received_new_view_messages[i].0.0 == sender.0 {
                proof {
                    assert(senders_contain(self.received_new_view_messages@, *sender));
                }
                return true;
            }
            i = i + 1;
        }
        proof {
            assert(!senders_contain(self.received_new_view_messages@, *sender));
        }
        false
    }

    /// When a `PreCommit` vote is counted: the right round, a sender on the
    /// current committee not counted before, and a verifying partial
    /// signature over a hash-carrying vote.
    pub open spec fn spec_accepts(
        &self,
        message: HotStuffMessage<P>,
        sender: NodeAddress,
        current_view: View,
        cm: CommitteeManager,
    ) -> bool {
        &&& message.spec_message_type() == HotStuffMessageType::PreCommit
        &&& message.spec_view_number() == current_view.view_id
        &&& !senders_contain(self.received_new_view_messages@, sender)
        &&& crate::services::committee_manager::committees_contain(
            cm.spec_committees(),
            cm.spec_current_shard().id,
        )
        &&& committee_members(cm.spec_committees(), cm.spec_current_shard().id).contains(sender)
        &&& message.spec_node_hashes() is Some
        &&& (message.spec_partial_sig() matches Some(sig) && sig.spec_verifies(
            sender,
            blake256_of(
                spec_challenge_preimage(
                    message.spec_message_type(),
                    message.spec_view_number().0,
                    message.spec_node_part(),
                ),
            ),
        ))
    }

    /// Counts one inbound `PreCommit` vote toward this leader's threshold;
    /// at threshold, merges the votes into a certificate and says to
    /// broadcast it to the committee.
    ///
    /// Counting is exactly-once per sender and per view, and only votes
    /// whose partial signature verifies are counted at all.
    pub fn process_leader_message(
        &mut self,
        current_view: &View,
        message: HotStuffMessage<P>,
        sender: &NodeAddress,
        committee_manager: &CommitteeManager,
    ) -> (r: Result<LeaderCommitAction<P>, DigitalAssetError>)
        requires
            old(self).well_formed(),
            committee_manager.well_formed(),
            message.well_formed(),
            old(self).committee.members@.len() > 0,
        ensures
            final(self).well_formed(),
            final(self).node_id == old(self).node_id,
            final(self).shard == old(self).shard,
            final(self).contract_id@ == old(self).contract_id@,
            final(self).committee.members@ == old(self).committee.members@,
            final(self).merged_vote_builder@ == old(self).merged_vote_builder@,
            !(message.spec_message_type() == HotStuffMessageType::PreCommit
                && message.spec_view_number() == current_view.view_id) ==> ((r matches Ok(a)
                && a is WaitingForMoreVotes) && final(self).received_new_view_messages@ == old(self).received_new_view_messages@),
            senders_contain(old(self).received_new_view_messages@, *sender) ==> final(self).received_new_view_messages@ == old(self).received_new_view_messages@,
            old(self).spec_accepts(message, *sender, *current_view, *committee_manager) ==> final(self).received_new_view_messages@ == old(self).received_new_view_messages@.push(
                (*sender, message),
            ),
            (old(self).spec_accepts(message, *sender, *current_view, *committee_manager) && old(self).received_new_view_messages@.len() + 1
                < old(self).committee.spec_consensus_threshold()) ==> (r matches Ok(a)
                && a is WaitingForMoreVotes),
            (old(self).spec_accepts(message, *sender, *current_view, *committee_manager) && old(
                self,
            ).received_new_view_messages@.len() + 1 >= old(
                self,
            ).committee.spec_consensus_threshold() && all_votes_agree(
                old(self).received_new_view_messages@.push((*sender, message)),
            )) ==> (r matches Ok(a) && a is BroadcastToCommittee),
            r matches Ok(a) ==> (a matches LeaderCommitAction::BroadcastToCommittee {
                recipients,
                message: m,
            } ==> {
                &&& recipients@ == old(self).committee.members@
                &&& m.spec_message_type() == HotStuffMessageType::Commit
                &&& m.spec_view_number() == current_view.view_id
                &&& m.spec_shard() == old(self).shard
                &&& m.spec_node() is None
                &&& (m.spec_justify() matches Some(qc) && {
                    &&& qc.spec_message_type() == HotStuffMessageType::PreCommit
                    &&& qc.spec_view_number() == current_view.view_id
                    &&& qc.spec_signatures().len() >= old(self).committee.spec_consensus_threshold()
                    &&& (forall|i: int, j: int|
                        0 <= i < j < qc.spec_signatures().len() ==> qc.spec_signatures()[i].signer
                            != qc.spec_signatures()[j].signer)
                })
            }),
    {
        if !message.matches(HotStuffMessageType::PreCommit, current_view.view_id) {
            return Ok(LeaderCommitAction::WaitingForMoreVotes);
        }
        if self.contains_sender(sender) {
            return Ok(LeaderCommitAction::WaitingForMoreVotes);
        }
        let committee = match committee_manager.current_committee() {
            Ok(c) => c,
            Err(e) => {
                return Err(e);
            },
        };
        if !committee.contains(sender) {
            return Ok(LeaderCommitAction::WaitingForMoreVotes);
        }
        if message.node_hashes().is_none() {
            return Ok(LeaderCommitAction::WaitingForMoreVotes);
        }
        let sig_ok = match message.partial_sig() {
            Some(sig) => {
                let challenge = message.create_signature_challenge();
                sig.verify(sender, &challenge)
            },
            None => false,
        };
        if !sig_ok {
            return Ok(LeaderCommitAction::WaitingForMoreVotes);
        }
        self.received_new_view_messages.push((*sender, message));
        proof {
            assert(forall|j: int| #![auto]
                0 <= j < old(self).received_new_view_messages@.len()
                    ==> self.received_new_view_messages@[j] == old(self).received_new_view_messages@[j]);
        }
        let threshold = self.committee.consensus_threshold();
        if self.received_new_view_messages.len() < threshold {
            return Ok(LeaderCommitAction::WaitingForMoreVotes);
        }
        let qc = match self.create_qc(current_view) {
            Some(qc) => qc,
            None => {
                return Ok(LeaderCommitAction::WaitingForMoreVotes);
            },
        };
        let recipients = self.committee.duplicate_members();
        let commit_message: HotStuffMessage<P> = HotStuffMessage::commit(
            None,
            Some(qc),
            current_view.view_id,
            self.shard,
        );
        Ok(LeaderCommitAction::BroadcastToCommittee { recipients, message: commit_message })
    }

    /// Merges the counted votes into one certificate. `None` when two votes
    /// disagree on a shard's hash — the committee did not agree — or when no
    /// vote was counted; with at least one vote and pairwise agreement, a
    /// certificate always comes out.
    fn create_qc(&self, current_view: &View) -> (r: Option<QuorumCertificate>)
        requires
            self.well_formed(),
        ensures
            r matches Some(qc) ==> {
                &&& qc.spec_message_type() == HotStuffMessageType::PreCommit
                &&& qc.spec_view_number() == current_view.view_id
                &&& qc.spec_signatures().len() == self.received_new_view_messages@.len()
                &&& (forall|i: int| #![auto]
                    0 <= i < qc.spec_signatures().len() ==> qc.spec_signatures()[i].signer
                        == self.received_new_view_messages@[i].0)
                &&& (forall|i: int, j: int|
                    0 <= i < j < qc.spec_signatures().len() ==> qc.spec_signatures()[i].signer
                        != qc.spec_signatures()[j].signer)
                &&& qc.well_formed()
            },
            (self.received_new_view_messages@.len() > 0 && all_votes_agree(
                self.received_new_view_messages@,
            )) ==> r is Some,
    {
        let ghost msgs = self.received_new_view_messages@;
        let mut node_hashes = ShardHashMap::new();
        let mut signatures: Vec<ValidatorSignature> = Vec::new();
        let mut i: usize = 0;
        while i < self.received_new_view_messages.len()
            invariant
                i <= msgs.len(),
                msgs == self.received_new_view_messages@,
                self.well_formed(),
                node_hashes.well_formed(),
                signatures@.len() == i,
                forall|j: int| #![auto]
                    0 <= j < i ==> signatures@[j].signer
                        == self.received_new_view_messages@[j].0,
                forall|j: int, k: int|
                    0 <= j < k < signatures@.len() ==> signatures@[j].signer
                        != signatures@[k].signer,
                forall|id: u64| #![auto]
                    entries_contain(node_hashes@, id) ==> exists|j: int| #![auto]
                        0 <= j < i && entries_contain(msgs[j].1.spec_node_hashes()->0, id)
                            && entries_value(node_hashes@, id) == entries_value(
                            msgs[j].1.spec_node_hashes()->0,
                            id,
                        ),
            decreases msgs.len() - i,
        {
            let message = &self.received_new_view_messages[i].1;
            let votes = match message.node_hashes() {
                Some(v) => v,
                None => {
                    proof {
                        assert(vote_intact(msgs[i as int].0, msgs[i as int].1));
                        assert(false);
                    }
                    return None;
                },
            };
            let mut k: usize = 0;
            while k < votes.len()
                invariant
                    k <= votes@.len(),
                    i < msgs.len(),
                    msgs == self.received_new_view_messages@,
                    self.well_formed(),
                    node_hashes.well_formed(),
                    votes.well_formed(),
                    votes@ == msgs[i as int].1.spec_node_hashes()->0,
                    forall|id: u64| #![auto]
                        entries_contain(node_hashes@, id) ==> exists|j: int| #![auto]
                            0 <= j <= i && entries_contain(msgs[j].1.spec_node_hashes()->0, id)
                                && entries_value(node_hashes@, id) == entries_value(
                                msgs[j].1.spec_node_hashes()->0,
                                id,
                            ),
                decreases votes@.len() - k,
            {
                let shard = votes.shard_at(k);
                let hash = votes.hash_at(k).duplicate();
                proof {
                    lemma_sorted_entries_unique(votes@, k as int);
                }
                let ghost pre_map = node_hashes@;
                match node_hashes.insert(shard, hash) {
                    Ok(_) => {
                        proof {
                            assert forall|id: u64| #![auto]
                                entries_contain(node_hashes@, id) implies exists|j: int| #![auto]
                                0 <= j <= i && entries_contain(
                                msgs[j].1.spec_node_hashes()->0,
                                id,
                            ) && entries_value(node_hashes@, id) == entries_value(
                                msgs[j].1.spec_node_hashes()->0,
                                id,
                            ) by {
                                if id == shard.id {
                                    assert(entries_contain(
                                        msgs[i as int].1.spec_node_hashes()->0,
                                        id,
                                    ) && entries_value(node_hashes@, id) == entries_value(
                                        msgs[i as int].1.spec_node_hashes()->0,
                                        id,
                                    ));
                                } else {
                                    assert(entries_contain(pre_map, id));
                                }
                            }
                        }
                    },
                    Err(_) => {
                        proof {
                            if msgs.len() > 0 && all_votes_agree(msgs) {
                                assert(entries_contain(pre_map, shard.id) && entries_value(
                                    pre_map,
                                    shard.id,
                                ) != hash@);
                                let j = choose|j: int| #![auto]
                                    0 <= j <= i && entries_contain(
                                        msgs[j].1.spec_node_hashes()->0,
                                        shard.id,
                                    ) && entries_value(pre_map, shard.id) == entries_value(
                                        msgs[j].1.spec_node_hashes()->0,
                                        shard.id,
                                    );
                                assert(votes_consistent(
                                    msgs[j].1.spec_node_hashes()->0,
                                    msgs[i as int].1.spec_node_hashes()->0,
                                ));
                                assert(entries_value(
                                    msgs[i as int].1.spec_node_hashes()->0,
                                    shard.id,
                                ) == hash@);
                                assert(false);
                            }
                        }
                        return None;
                    },
                }
                k = k + 1;
            }
            let sig = match message.partial_sig() {
                Some(s) => s.duplicate(),
                None => {
                    proof {
                        assert(vote_intact(msgs[i as int].0, msgs[i as int].1));
                        assert(false);
                    }
                    return None;
                },
            };
            proof {
                assert(self.received_new_view_messages@[i as int]
                    .1.spec_partial_sig() is Some);
                assert(sig.signer == self.received_new_view_messages@[i as int].0);
            }
            signatures.push(sig);
            i = i + 1;
        }
        if signatures.len() == 0 {
            return None;
        }
        Some(
            QuorumCertificate::new(
                HotStuffMessageType::PreCommit,
                current_view.view_id,
                node_hashes,
                signatures,
            ),
        )
    }

    /// The checkpoint signature a Commit vote carries: a fresh signing
    /// secret over the challenge binding contract id, commitment, finalized
    /// state root and checkpoint number.
    fn generate_checkpoint_signature(&self) -> (r: SignerSignature)
        ensures
            r.challenge_hash@ == blake256_of(
                blake256_of(
                    crate::models::checkpoint::spec_checkpoint_challenge_preimage(
                        self.contract_id@,
                        Seq::new(32, |i: int| 0u8),
                        Seq::new(32, |i: int| 0u8),
                        0,
                    ),
                ),
            ),
    {
        let signer_secret = fresh_signing_secret();
        let commitment = zero_bytes(32);
        let state_root = zero_bytes(32);
        let checkpoint_number: u64 = 0;
        proof {
            assert(commitment@ =~= Seq::new(32, |i: int| 0u8));
            assert(state_root@ =~= Seq::new(32, |i: int| 0u8));
        }
        let challenge = CheckpointChallenge::new(
            &self.contract_id,
            &commitment,
            &state_root,
            checkpoint_number,
        );
        SignerSignature::sign(&signer_secret, &challenge)
    }

    /// Locks an inbound `PreCommit` certificate and answers the view leader
    /// with a signed, checkpoint-carrying Commit vote.
    pub fn process_replica_message(
        &mut self,
        message: &HotStuffMessage<P>,
        current_view: &View,
        from: &NodeAddress,
        view_leader: &NodeAddress,
        signing_service: &SigningService,
        unit_of_work: &mut ChainDbUnitOfWork,
    ) -> (r: Result<ReplicaCommitAction<P>, DigitalAssetError>)
        requires
            old(self).well_formed(),
            message.well_formed(),
            old(unit_of_work).well_formed(),
        ensures
            final(self).well_formed(),
            final(unit_of_work).well_formed(),
            message.spec_justify() is None ==> ((r matches Ok(a) && a is Ignored) && *final(unit_of_work) == *old(unit_of_work)),
            (message.spec_justify() matches Some(j) && !(j.spec_message_type()
                == HotStuffMessageType::PreCommit && j.spec_view_number()
                == current_view.view_id)) ==> ((r matches Ok(a) && a is Ignored) && *final(unit_of_work) == *old(unit_of_work)),
            (message.spec_justify() is Some && message.spec_justify()->0.spec_message_type()
                == HotStuffMessageType::PreCommit && message.spec_justify()->0.spec_view_number()
                == current_view.view_id && *from != *view_leader) ==> ((r matches Ok(a)
                && a is Ignored) && *final(unit_of_work) == *old(unit_of_work)),
            (message.spec_justify() is Some && message.spec_justify()->0.spec_message_type()
                == HotStuffMessageType::PreCommit && message.spec_justify()->0.spec_view_number()
                == current_view.view_id && *from == *view_leader) ==> (r matches Ok(a)
                && a is SendVoteToLeader),
            r matches Ok(a) ==> (a matches ReplicaCommitAction::SendVoteToLeader {
                to,
                message: m,
            } ==> {
                &&& to == *view_leader
                &&& (message.spec_justify() matches Some(j) && {
                    &&& j.spec_message_type() == HotStuffMessageType::PreCommit
                    &&& j.spec_view_number() == current_view.view_id
                    &&& *from == *view_leader
                    &&& final(unit_of_work).locked_qc.model() == j.model()
                    &&& m.spec_node_hashes() == Some(j.spec_node_hashes())
                })
                &&& m.spec_message_type() == HotStuffMessageType::Commit
                &&& m.spec_view_number() == current_view.view_id
                &&& m.spec_shard() == old(self).shard
                &&& (m.spec_partial_sig() matches Some(sig) && sig.spec_verifies(
                    old(self).node_id,
                    blake256_of(
                        spec_challenge_preimage(
                            m.spec_message_type(),
                            m.spec_view_number().0,
                            m.spec_node_part(),
                        ),
                    ),
                ))
            }),
    {
        let justify = match message.justify() {
            Some(j) => j,
            None => {
                return Ok(ReplicaCommitAction::Ignored);
            },
        };
        if !justify.matches(HotStuffMessageType::PreCommit, current_view.view_id) {
            return Ok(ReplicaCommitAction::Ignored);
        }
        if from.0 != view_leader.0 {
            return Ok(ReplicaCommitAction::Ignored);
        }
        match unit_of_work.set_locked_qc(justify) {
            Ok(_) => {},
            Err(e) => {
                return Err(e);
            },
        }
        let node_hashes = justify.node_hashes().duplicate();
        let checkpoint_signature = self.generate_checkpoint_signature();
        let mut vote: HotStuffMessage<P> = HotStuffMessage::vote_commit(
            node_hashes,
            current_view.view_id,
            self.shard,
            checkpoint_signature,
        );
        let challenge = vote.create_signature_challenge();
        let sig = match signing_service.sign(&self.node_id, &challenge) {
            Ok(s) => s,
            Err(e) => {
                return Err(e);
            },
        };
        vote.add_partial_sig(sig);
        Ok(ReplicaCommitAction::SendVoteToLeader { to: *view_leader, message: vote })
    }
}

} // verus!
