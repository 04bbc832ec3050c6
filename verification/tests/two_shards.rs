use dan_hotstuff::instructions::{Instruction, InstructionSet};
use dan_hotstuff::models::asset_meta::TemplateId;
use dan_hotstuff::models::committee::{Committee, NodeAddress};
use dan_hotstuff::models::hot_stuff_message::HotStuffMessage;
use dan_hotstuff::models::hot_stuff_message_type::HotStuffMessageType;
use dan_hotstuff::models::hot_stuff_tree_node::HotStuffTreeNode;
use dan_hotstuff::models::payload::{Payload, SimplePayload};
use dan_hotstuff::models::quorum_certificate::QuorumCertificate;
use dan_hotstuff::models::shard::{Shard, ShardKey};
use dan_hotstuff::models::shard_hash_map::ShardHashMap;
use dan_hotstuff::models::tari_dan_payload::TariDanPayload;
use dan_hotstuff::models::tree_node_hash::TreeNodeHash;
use dan_hotstuff::models::view::View;
use dan_hotstuff::models::view_id::ViewId;
use dan_hotstuff::services::committee_manager::CommitteeManager;
use dan_hotstuff::services::payload_processor::PayloadProcessor;
use dan_hotstuff::services::signing::SigningService;
use dan_hotstuff::storage::chain_db::ChainDbUnitOfWork;
use dan_hotstuff::storage::state_db::StateDb;
use dan_hotstuff::workers::prepare::{LeaderPrepareAction, Prepare, ReplicaPrepareAction};

fn shard(id: u64) -> Shard {
    Shard { id }
}

/// Two shards of four validators each: shard 0 owns key bytes 0..128,
/// shard 1 owns 128..255.
fn two_shard_manager(current: u64) -> CommitteeManager {
    let mut cm = CommitteeManager::new(shard(current));
    for member in 0u64..4u64 {
        cm.assign(shard(0), 0, 128, NodeAddress(member));
    }
    for member in 4u64..8u64 {
        cm.assign(shard(1), 128, 255, NodeAddress(member + 96));
    }
    cm
}

fn cross_shard_payload() -> TariDanPayload {
    let a = Instruction::new(
        TemplateId::EditableMetadata,
        String::from("bring_up"),
        vec![5],
        vec![0xAA],
        vec![ShardKey::new(vec![0])],
    );
    let b = Instruction::new(
        TemplateId::EditableMetadata,
        String::from("bring_up"),
        vec![7],
        vec![0xBB],
        vec![ShardKey::new(vec![200])],
    );
    TariDanPayload::new(InstructionSet::from_instructions(vec![a, b]), None)
}

fn justify_for(shard_id: u64) -> QuorumCertificate {
    let mut map = ShardHashMap::new();
    map.insert(shard(shard_id), TreeNodeHash::zero()).unwrap();
    QuorumCertificate::new(HotStuffMessageType::Prepare, ViewId(0), map, Vec::new())
}

#[test]
fn two_shards() {
    // Each shard's leader gathers three NewView messages, proposes its
    // payload, and the replicas of each shard vote after their own shard's
    // hash is in.
    let view = View { view_id: ViewId(1), is_leader: true };
    let signing = SigningService::new();
    let processor = PayloadProcessor::new();

    let payloads = [SimplePayload::bring_up(5, 0), SimplePayload::bring_up(7, 200)];
    for shard_id in [0u64, 1u64] {
        let cm = two_shard_manager(shard_id);
        let committee = Committee::new(
            cm.get_shard_committee(shard(shard_id)).unwrap().duplicate_members(),
        );
        let leader = *committee.leader_for_view(ViewId(1));
        let mut leader_phase: Prepare<SimplePayload> = Prepare::new(leader, shard(shard_id));
        let payload = payloads[shard_id as usize].duplicate();
        let db = StateDb::new();
        let mut temp_state = db.new_unit_of_work(1);

        let mut proposal = None;
        for k in 0..3usize {
            let sender = committee.members[k];
            let msg = HotStuffMessage::new_view(justify_for(shard_id), ViewId(1), shard(shard_id));
            let action = leader_phase
                .process_leader_message(
                    &view,
                    msg,
                    &sender,
                    &committee,
                    &cm,
                    &payload,
                    &processor,
                    &mut temp_state,
                )
                .unwrap();
            if k < 2 {
                assert!(matches!(action, LeaderPrepareAction::WaitingForMoreVotes));
            } else if let LeaderPrepareAction::BroadcastProposal { recipients, message } = action {
                assert_eq!(recipients.len(), 4);
                proposal = Some(message);
            } else {
                panic!("expected a proposal after three NewView messages");
            }
        }

        // A replica of the same shard votes on the broadcast proposal.
        let proposal = proposal.unwrap();
        let replica_view = View { view_id: ViewId(1), is_leader: false };
        let mut replica: Prepare<SimplePayload> =
            Prepare::new(committee.members[2], shard(shard_id));
        let mut chain = ChainDbUnitOfWork::new();
        let mut state = db.new_unit_of_work(1);
        let action = replica
            .process_replica_message(
                &proposal,
                &replica_view,
                &leader,
                &leader,
                &signing,
                &cm,
                &mut chain,
                &mut state,
            )
            .unwrap();
        assert!(matches!(action, ReplicaPrepareAction::SendVoteToLeader { .. }));
    }
}

#[test]
fn cross_shard_payload_needs_both_shard_hashes() {
    // A payload that touches both shards: the replica of shard 0 holds its
    // vote until shard 1's hash has arrived as well.
    let cm = two_shard_manager(0);
    let committee0 = Committee::new(cm.get_shard_committee(shard(0)).unwrap().duplicate_members());
    let committee1 = Committee::new(cm.get_shard_committee(shard(1)).unwrap().duplicate_members());
    let leader0 = *committee0.leader_for_view(ViewId(1));
    let leader1 = *committee1.leader_for_view(ViewId(1));
    let payload = cross_shard_payload();
    let signing = SigningService::new();
    let processor = PayloadProcessor::new();
    let db = StateDb::new();

    let mut tx = db.new_unit_of_work(1);
    let root = processor.process_payload(&payload, &mut tx).unwrap();
    let node0 = HotStuffTreeNode::from_parent(
        TreeNodeHash::zero(),
        payload.duplicate(),
        root.clone(),
        1,
    );
    let node1 = HotStuffTreeNode::from_parent(
        TreeNodeHash::zero(),
        payload.duplicate(),
        root.clone(),
        1,
    );

    let message0 = HotStuffMessage::prepare(node0, Some(justify_for(0)), ViewId(1), shard(0));
    let message1 = HotStuffMessage::prepare(node1, Some(justify_for(1)), ViewId(1), shard(1));

    let replica_view = View { view_id: ViewId(1), is_leader: false };
    let mut replica: Prepare<TariDanPayload> = Prepare::new(committee0.members[2], shard(0));
    let mut chain = ChainDbUnitOfWork::new();
    let mut state = db.new_unit_of_work(1);

    // Own shard's proposal alone is not enough for a cross-shard payload.
    let action = replica
        .process_replica_message(
            &message0,
            &replica_view,
            &leader0,
            &leader0,
            &signing,
            &cm,
            &mut chain,
            &mut state,
        )
        .unwrap();
    assert!(matches!(action, ReplicaPrepareAction::WaitingForOtherShards));

    // Once the other shard's hash arrives, the merged vote goes out.
    let action = replica
        .process_replica_message(
            &message1,
            &replica_view,
            &leader1,
            &leader0,
            &signing,
            &cm,
            &mut chain,
            &mut state,
        )
        .unwrap();
    match action {
        ReplicaPrepareAction::SendVoteToLeader { to, message } => {
            assert_eq!(to, leader0);
            let hashes = message.node_hashes().unwrap();
            assert_eq!(hashes.len(), 2);
        },
        _ => panic!("expected a merged vote once both shards reported"),
    }
}
