use dan_hotstuff::errors::DigitalAssetError;
use dan_hotstuff::models::committee::{Committee, NodeAddress};
use dan_hotstuff::models::hot_stuff_message::HotStuffMessage;
use dan_hotstuff::models::hot_stuff_message_type::HotStuffMessageType;
use dan_hotstuff::models::payload::SimplePayload;
use dan_hotstuff::models::quorum_certificate::QuorumCertificate;
use dan_hotstuff::models::shard::Shard;
use dan_hotstuff::models::shard_hash_map::ShardHashMap;
use dan_hotstuff::models::tree_node_hash::TreeNodeHash;
use dan_hotstuff::models::view::View;
use dan_hotstuff::models::view_id::ViewId;
use dan_hotstuff::models::hot_stuff_tree_node::HotStuffTreeNode;
use dan_hotstuff::models::payload::Payload;
use dan_hotstuff::services::committee_manager::CommitteeManager;
use dan_hotstuff::services::payload_processor::PayloadProcessor;
use dan_hotstuff::services::signing::SigningService;
use dan_hotstuff::storage::chain_db::ChainDbUnitOfWork;
use dan_hotstuff::storage::state_db::StateDb;
use dan_hotstuff::workers::prepare::{LeaderPrepareAction, Prepare, ReplicaPrepareAction};

fn shard0() -> Shard {
    Shard { id: 0 }
}

fn four_member_manager() -> (CommitteeManager, Committee) {
    let mut cm = CommitteeManager::new(shard0());
    cm.assign(shard0(), 0, 255, NodeAddress(0));
    cm.assign(shard0(), 0, 255, NodeAddress(1));
    cm.assign(shard0(), 0, 255, NodeAddress(2));
    cm.assign(shard0(), 0, 255, NodeAddress(3));
    let committee = Committee::new(vec![
        NodeAddress(0),
        NodeAddress(1),
        NodeAddress(2),
        NodeAddress(3),
    ]);
    (cm, committee)
}

fn prepare_qc_for_shard0() -> QuorumCertificate {
    let mut map = ShardHashMap::new();
    map.insert(shard0(), TreeNodeHash::zero()).unwrap();
    QuorumCertificate::new(HotStuffMessageType::Prepare, ViewId(0), map, Vec::new())
}

#[test]
fn leader_reaches_threshold_after_three_new_views() {
    let (cm, committee) = four_member_manager();
    let mut prepare: Prepare<SimplePayload> = Prepare::new(NodeAddress(1), shard0());
    let view = View { view_id: ViewId(1), is_leader: true };
    let payload = SimplePayload::bring_up(5, 0);
    let processor = PayloadProcessor::new();
    let db = StateDb::new();
    let mut temp_state = db.new_unit_of_work(1);

    for sender in [0u64, 2u64] {
        let msg = HotStuffMessage::new_view(prepare_qc_for_shard0(), ViewId(1), shard0());
        let action = prepare
            .process_leader_message(
                &view,
                msg,
                &NodeAddress(sender),
                &committee,
                &cm,
                &payload,
                &processor,
                &mut temp_state,
            )
            .unwrap();
        assert!(matches!(action, LeaderPrepareAction::WaitingForMoreVotes));
    }

    let msg = HotStuffMessage::new_view(prepare_qc_for_shard0(), ViewId(1), shard0());
    let action = prepare
        .process_leader_message(
            &view,
            msg,
            &NodeAddress(3),
            &committee,
            &cm,
            &payload,
            &processor,
            &mut temp_state,
        )
        .unwrap();
    match action {
        LeaderPrepareAction::BroadcastProposal { recipients, message } => {
            assert_eq!(recipients.len(), 4);
            assert_eq!(message.message_type(), HotStuffMessageType::Prepare);
            assert_eq!(message.view_number(), ViewId(1));
            let node = message.node().unwrap();
            assert_eq!(node.parent().as_bytes(), TreeNodeHash::zero().as_bytes());
            assert_eq!(node.height(), 1);
        },
        _ => panic!("expected a proposal at threshold"),
    }
}

#[test]
fn duplicate_new_view_from_same_sender_is_counted_once() {
    let (cm, committee) = four_member_manager();
    let mut prepare: Prepare<SimplePayload> = Prepare::new(NodeAddress(1), shard0());
    let view = View { view_id: ViewId(1), is_leader: true };
    let payload = SimplePayload::bring_up(5, 0);
    let processor = PayloadProcessor::new();
    let db = StateDb::new();
    let mut temp_state = db.new_unit_of_work(1);

    // Three messages, but only two distinct senders: threshold 3 is not
    // reached, because the duplicate does not double-count.
    for sender in [0u64, 0u64, 2u64] {
        let msg = HotStuffMessage::new_view(prepare_qc_for_shard0(), ViewId(1), shard0());
        let action = prepare
            .process_leader_message(
                &view,
                msg,
                &NodeAddress(sender),
                &committee,
                &cm,
                &payload,
                &processor,
                &mut temp_state,
            )
            .unwrap();
        assert!(matches!(action, LeaderPrepareAction::WaitingForMoreVotes));
    }
    assert_eq!(prepare.received_new_view_messages.len(), 2);
}

#[test]
fn non_member_new_view_is_ignored() {
    let (cm, committee) = four_member_manager();
    let mut prepare: Prepare<SimplePayload> = Prepare::new(NodeAddress(1), shard0());
    let view = View { view_id: ViewId(1), is_leader: true };
    let payload = SimplePayload::bring_up(5, 0);
    let processor = PayloadProcessor::new();
    let db = StateDb::new();
    let mut temp_state = db.new_unit_of_work(1);

    let msg = HotStuffMessage::new_view(prepare_qc_for_shard0(), ViewId(1), shard0());
    let action = prepare
        .process_leader_message(
            &view,
            msg,
            &NodeAddress(99),
            &committee,
            &cm,
            &payload,
            &processor,
            &mut temp_state,
        )
        .unwrap();
    assert!(matches!(action, LeaderPrepareAction::WaitingForMoreVotes));
    assert_eq!(prepare.received_new_view_messages.len(), 0);
}

fn build_valid_proposal(
    db: &StateDb,
    payload: &SimplePayload,
) -> (HotStuffTreeNode<SimplePayload>, QuorumCertificate) {
    let processor = PayloadProcessor::new();
    let mut tx = db.new_unit_of_work(1);
    let root = processor.process_payload(payload, &mut tx).unwrap();
    let node = HotStuffTreeNode::from_parent(TreeNodeHash::zero(), payload.duplicate(), root, 1);
    (node, prepare_qc_for_shard0())
}

#[test]
fn replica_votes_for_valid_single_shard_proposal() {
    let (cm, committee) = four_member_manager();
    let mut prepare: Prepare<SimplePayload> = Prepare::new(NodeAddress(2), shard0());
    let view = View { view_id: ViewId(1), is_leader: false };
    let leader = *committee.leader_for_view(ViewId(1));
    let payload = SimplePayload::bring_up(5, 0);
    let db = StateDb::new();
    let (node, justify) = build_valid_proposal(&db, &payload);
    let message = HotStuffMessage::prepare(node, Some(justify), ViewId(1), shard0());
    let signing = SigningService::new();
    let mut chain = ChainDbUnitOfWork::new();
    let mut state = db.new_unit_of_work(1);

    let action = prepare
        .process_replica_message(&message, &view, &leader, &leader, &signing, &cm, &mut chain, &mut state)
        .unwrap();
    match action {
        ReplicaPrepareAction::SendVoteToLeader { to, message: vote } => {
            assert_eq!(to, leader);
            assert_eq!(vote.message_type(), HotStuffMessageType::Prepare);
            assert_eq!(vote.view_number(), ViewId(1));
            assert!(vote.partial_sig().is_some());
            let hashes = vote.node_hashes().unwrap();
            assert_eq!(hashes.len(), 1);
        },
        _ => panic!("expected a vote for a valid proposal"),
    }
}

#[test]
fn forged_parent_hash_is_never_voted_for() {
    let (cm, committee) = four_member_manager();
    let mut prepare: Prepare<SimplePayload> = Prepare::new(NodeAddress(2), shard0());
    let view = View { view_id: ViewId(1), is_leader: false };
    let leader = *committee.leader_for_view(ViewId(1));
    let payload = SimplePayload::bring_up(5, 0);
    let db = StateDb::new();
    let processor = PayloadProcessor::new();
    let mut tx = db.new_unit_of_work(1);
    let root = processor.process_payload(&payload, &mut tx).unwrap();
    // The parent does not match what the justify certificate references.
    let forged_parent = TreeNodeHash(vec![9u8; 32]);
    let node = HotStuffTreeNode::from_parent(forged_parent, payload.duplicate(), root, 1);
    let message = HotStuffMessage::prepare(node, Some(prepare_qc_for_shard0()), ViewId(1), shard0());
    let signing = SigningService::new();
    let mut chain = ChainDbUnitOfWork::new();
    let mut state = db.new_unit_of_work(1);

    let result = prepare.process_replica_message(
        &message,
        &view,
        &leader,
        &leader,
        &signing,
        &cm,
        &mut chain,
        &mut state,
    );
    assert_eq!(
        result.unwrap_err(),
        DigitalAssetError::PreparePhaseCertificateDoesNotExtendNode
    );
}

#[test]
fn unsafe_node_against_locked_certificate_is_refused() {
    let (cm, committee) = four_member_manager();
    let mut prepare: Prepare<SimplePayload> = Prepare::new(NodeAddress(2), shard0());
    let view = View { view_id: ViewId(1), is_leader: false };
    let leader = *committee.leader_for_view(ViewId(1));
    let payload = SimplePayload::bring_up(5, 0);
    let db = StateDb::new();
    let (node, justify) = build_valid_proposal(&db, &payload);
    let message = HotStuffMessage::prepare(node, Some(justify), ViewId(1), shard0());
    let signing = SigningService::new();
    // Lock a newer certificate referencing a different node: the proposal
    // neither extends the lock nor outruns its view.
    let mut chain = ChainDbUnitOfWork::new();
    let mut locked_map = ShardHashMap::new();
    locked_map.insert(shard0(), TreeNodeHash(vec![7u8; 32])).unwrap();
    let locked = QuorumCertificate::new(
        HotStuffMessageType::Prepare,
        ViewId(5),
        locked_map,
        Vec::new(),
    );
    chain.set_locked_qc(&locked).unwrap();
    let mut state = db.new_unit_of_work(1);

    let result = prepare.process_replica_message(
        &message,
        &view,
        &leader,
        &leader,
        &signing,
        &cm,
        &mut chain,
        &mut state,
    );
    assert_eq!(result.unwrap_err(), DigitalAssetError::PreparePhaseNodeNotSafe);
}

#[test]
fn state_root_mismatch_withholds_the_vote_silently() {
    let (cm, committee) = four_member_manager();
    let mut prepare: Prepare<SimplePayload> = Prepare::new(NodeAddress(2), shard0());
    let view = View { view_id: ViewId(1), is_leader: false };
    let leader = *committee.leader_for_view(ViewId(1));
    let payload = SimplePayload::bring_up(5, 0);
    let db = StateDb::new();
    // Declared root is all zeros, which the recomputation cannot match.
    let node = HotStuffTreeNode::from_parent(
        TreeNodeHash::zero(),
        payload.duplicate(),
        vec![0u8; 32],
        1,
    );
    let message = HotStuffMessage::prepare(node, Some(prepare_qc_for_shard0()), ViewId(1), shard0());
    let signing = SigningService::new();
    let mut chain = ChainDbUnitOfWork::new();
    let mut state = db.new_unit_of_work(1);

    let action = prepare
        .process_replica_message(&message, &view, &leader, &leader, &signing, &cm, &mut chain, &mut state)
        .unwrap();
    assert!(matches!(action, ReplicaPrepareAction::Ignored));
}

#[test]
fn proposal_without_justify_is_an_error() {
    let (cm, committee) = four_member_manager();
    let mut prepare: Prepare<SimplePayload> = Prepare::new(NodeAddress(2), shard0());
    let view = View { view_id: ViewId(1), is_leader: false };
    let leader = *committee.leader_for_view(ViewId(1));
    let payload = SimplePayload::bring_up(5, 0);
    let db = StateDb::new();
    let (node, _) = build_valid_proposal(&db, &payload);
    let message = HotStuffMessage::prepare(node, None, ViewId(1), shard0());
    let signing = SigningService::new();
    let mut chain = ChainDbUnitOfWork::new();
    let mut state = db.new_unit_of_work(1);

    let result = prepare.process_replica_message(
        &message,
        &view,
        &leader,
        &leader,
        &signing,
        &cm,
        &mut chain,
        &mut state,
    );
    assert_eq!(result.unwrap_err(), DigitalAssetError::PreparePhaseNoQuorumCertificate);
}

#[test]
fn message_for_uninvolved_shard_is_an_error() {
    let (cm, committee) = four_member_manager();
    let mut prepare: Prepare<SimplePayload> = Prepare::new(NodeAddress(2), shard0());
    let view = View { view_id: ViewId(1), is_leader: false };
    let leader = *committee.leader_for_view(ViewId(1));
    let payload = SimplePayload::bring_up(5, 0);
    let db = StateDb::new();
    let (node, justify) = build_valid_proposal(&db, &payload);
    // The payload routes only to shard 0, but the message claims shard 9.
    let message = HotStuffMessage::prepare(node, Some(justify), ViewId(1), Shard { id: 9 });
    let signing = SigningService::new();
    let mut chain = ChainDbUnitOfWork::new();
    let mut state = db.new_unit_of_work(1);

    let result = prepare.process_replica_message(
        &message,
        &view,
        &leader,
        &leader,
        &signing,
        &cm,
        &mut chain,
        &mut state,
    );
    assert_eq!(result.unwrap_err(), DigitalAssetError::MessageReceivedForWrongShard);
}

#[test]
fn justify_without_own_shard_hash_is_an_error() {
    let (cm, committee) = four_member_manager();
    let mut prepare: Prepare<SimplePayload> = Prepare::new(NodeAddress(2), shard0());
    let view = View { view_id: ViewId(1), is_leader: false };
    let leader = *committee.leader_for_view(ViewId(1));
    let payload = SimplePayload::bring_up(5, 0);
    let db = StateDb::new();
    let (node, _) = build_valid_proposal(&db, &payload);
    let empty_justify = QuorumCertificate::new(
        HotStuffMessageType::Prepare,
        ViewId(1),
        ShardHashMap::new(),
        Vec::new(),
    );
    let message = HotStuffMessage::prepare(node, Some(empty_justify), ViewId(1), shard0());
    let signing = SigningService::new();
    let mut chain = ChainDbUnitOfWork::new();
    let mut state = db.new_unit_of_work(1);

    let result = prepare.process_replica_message(
        &message,
        &view,
        &leader,
        &leader,
        &signing,
        &cm,
        &mut chain,
        &mut state,
    );
    assert_eq!(result.unwrap_err(), DigitalAssetError::JustifyMissingShardHash);
}
