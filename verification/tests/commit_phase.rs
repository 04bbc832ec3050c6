use dan_hotstuff::models::committee::{Committee, NodeAddress};
use dan_hotstuff::models::hot_stuff_message::HotStuffMessage;
use dan_hotstuff::models::hot_stuff_message_type::HotStuffMessageType;
use dan_hotstuff::models::payload::SimplePayload;
use dan_hotstuff::models::quorum_certificate::QuorumCertificate;
use dan_hotstuff::models::shard::Shard;
use dan_hotstuff::models::shard_hash_map::ShardHashMap;
use dan_hotstuff::models::tree_node_hash::TreeNodeHash;
use dan_hotstuff::models::view::View;
use dan_hotstuff::models::view_id::ViewId;
use dan_hotstuff::services::committee_manager::CommitteeManager;
use dan_hotstuff::services::signing::SigningService;
use dan_hotstuff::storage::chain_db::ChainDbUnitOfWork;
use dan_hotstuff::workers::commit_state::{CommitState, LeaderCommitAction, ReplicaCommitAction};

fn shard0() -> Shard {
    Shard { id: 0 }
}

fn setup() -> (CommitteeManager, Committee) {
    let mut cm = CommitteeManager::new(shard0());
    for member in 0u64..4u64 {
        cm.assign(shard0(), 0, 255, NodeAddress(member));
    }
    let committee = Committee::new(vec![
        NodeAddress(0),
        NodeAddress(1),
        NodeAddress(2),
        NodeAddress(3),
    ]);
    (cm, committee)
}

fn signed_vote(sender: u64, hash_byte: u8) -> HotStuffMessage<SimplePayload> {
    let mut map = ShardHashMap::new();
    map.insert(shard0(), TreeNodeHash(vec![hash_byte; 32])).unwrap();
    let mut vote: HotStuffMessage<SimplePayload> =
        HotStuffMessage::vote_pre_commit(map, ViewId(3), shard0());
    let challenge = vote.create_signature_challenge();
    let sig = SigningService::new().sign(&NodeAddress(sender), &challenge).unwrap();
    vote.add_partial_sig(sig);
    vote
}

#[test]
fn commit_leader_builds_certificate_at_threshold() {
    let (cm, committee) = setup();
    let mut commit: CommitState<SimplePayload> =
        CommitState::new(NodeAddress(1), vec![7u8; 32], shard0(), committee);
    let view = View { view_id: ViewId(3), is_leader: true };

    for sender in [0u64, 2u64] {
        let action = commit
            .process_leader_message(&view, signed_vote(sender, 3), &NodeAddress(sender), &cm)
            .unwrap();
        assert!(matches!(action, LeaderCommitAction::WaitingForMoreVotes));
    }
    let action = commit
        .process_leader_message(&view, signed_vote(3, 3), &NodeAddress(3), &cm)
        .unwrap();
    match action {
        LeaderCommitAction::BroadcastToCommittee { recipients, message } => {
            assert_eq!(recipients.len(), 4);
            assert_eq!(message.message_type(), HotStuffMessageType::Commit);
            let qc = message.justify().unwrap();
            assert_eq!(qc.message_type(), HotStuffMessageType::PreCommit);
            assert_eq!(qc.view_number(), ViewId(3));
            assert_eq!(qc.signatures().len(), 3);
        },
        _ => panic!("expected a certificate broadcast at threshold"),
    }
}

#[test]
fn commit_leader_refuses_unsigned_votes() {
    let (cm, committee) = setup();
    let mut commit: CommitState<SimplePayload> =
        CommitState::new(NodeAddress(1), vec![7u8; 32], shard0(), committee);
    let view = View { view_id: ViewId(3), is_leader: true };

    let mut map = ShardHashMap::new();
    map.insert(shard0(), TreeNodeHash(vec![3u8; 32])).unwrap();
    let unsigned: HotStuffMessage<SimplePayload> =
        HotStuffMessage::vote_pre_commit(map, ViewId(3), shard0());
    let action = commit
        .process_leader_message(&view, unsigned, &NodeAddress(0), &cm)
        .unwrap();
    assert!(matches!(action, LeaderCommitAction::WaitingForMoreVotes));
    assert_eq!(commit.received_new_view_messages.len(), 0);
}

#[test]
fn disagreeing_votes_never_merge_into_a_certificate() {
    let (cm, committee) = setup();
    let mut commit: CommitState<SimplePayload> =
        CommitState::new(NodeAddress(1), vec![7u8; 32], shard0(), committee);
    let view = View { view_id: ViewId(3), is_leader: true };

    commit.process_leader_message(&view, signed_vote(0, 3), &NodeAddress(0), &cm).unwrap();
    commit.process_leader_message(&view, signed_vote(2, 3), &NodeAddress(2), &cm).unwrap();
    // The third vote names a different hash: threshold is reached but the
    // committee did not agree, so nothing is broadcast.
    let action = commit
        .process_leader_message(&view, signed_vote(3, 9), &NodeAddress(3), &cm)
        .unwrap();
    assert!(matches!(action, LeaderCommitAction::WaitingForMoreVotes));
}

#[test]
fn commit_replica_locks_certificate_and_votes_with_checkpoint() {
    let (_cm, committee) = setup();
    let leader = *committee.leader_for_view(ViewId(3));
    let mut commit: CommitState<SimplePayload> =
        CommitState::new(NodeAddress(2), vec![7u8; 32], shard0(), committee);
    let view = View { view_id: ViewId(3), is_leader: false };
    let signing = SigningService::new();
    let mut chain = ChainDbUnitOfWork::new();

    let mut map = ShardHashMap::new();
    map.insert(shard0(), TreeNodeHash(vec![3u8; 32])).unwrap();
    let qc = QuorumCertificate::new(HotStuffMessageType::PreCommit, ViewId(3), map, Vec::new());
    let message: HotStuffMessage<SimplePayload> =
        HotStuffMessage::commit(None, Some(qc), ViewId(3), shard0());

    let action = commit
        .process_replica_message(&message, &view, &leader, &leader, &signing, &mut chain)
        .unwrap();
    match action {
        ReplicaCommitAction::SendVoteToLeader { to, message: vote } => {
            assert_eq!(to, leader);
            assert_eq!(vote.message_type(), HotStuffMessageType::Commit);
            assert!(vote.partial_sig().is_some());
            let checkpoint = vote.checkpoint_signature().unwrap();
            assert_eq!(checkpoint.signer_commitment.len(), 32);
            assert_eq!(checkpoint.challenge_hash.len(), 32);
        },
        _ => panic!("expected a commit vote"),
    }
    // The inbound certificate is now the locked certificate.
    let locked = chain.get_locked_qc().unwrap();
    assert_eq!(locked.view_number(), ViewId(3));
    assert_eq!(locked.message_type(), HotStuffMessageType::PreCommit);
}

#[test]
fn commit_replica_ignores_stale_or_foreign_certificates() {
    let (_cm, committee) = setup();
    let leader = *committee.leader_for_view(ViewId(3));
    let mut commit: CommitState<SimplePayload> =
        CommitState::new(NodeAddress(2), vec![7u8; 32], shard0(), committee);
    let view = View { view_id: ViewId(3), is_leader: false };
    let signing = SigningService::new();
    let mut chain = ChainDbUnitOfWork::new();

    // Wrong view on the justify: dropped.
    let mut map = ShardHashMap::new();
    map.insert(shard0(), TreeNodeHash(vec![3u8; 32])).unwrap();
    let stale = QuorumCertificate::new(HotStuffMessageType::PreCommit, ViewId(2), map, Vec::new());
    let message: HotStuffMessage<SimplePayload> =
        HotStuffMessage::commit(None, Some(stale), ViewId(3), shard0());
    let action = commit
        .process_replica_message(&message, &view, &leader, &leader, &signing, &mut chain)
        .unwrap();
    assert!(matches!(action, ReplicaCommitAction::Ignored));

    // Not from the view leader: dropped.
    let mut map = ShardHashMap::new();
    map.insert(shard0(), TreeNodeHash(vec![3u8; 32])).unwrap();
    let qc = QuorumCertificate::new(HotStuffMessageType::PreCommit, ViewId(3), map, Vec::new());
    let message: HotStuffMessage<SimplePayload> =
        HotStuffMessage::commit(None, Some(qc), ViewId(3), shard0());
    let stranger = NodeAddress(0);
    let action = commit
        .process_replica_message(&message, &view, &stranger, &leader, &signing, &mut chain)
        .unwrap();
    assert!(matches!(action, ReplicaCommitAction::Ignored));
    // The genesis lock is untouched.
    assert_eq!(
        chain.get_locked_qc().unwrap().message_type(),
        HotStuffMessageType::Genesis
    );
}
