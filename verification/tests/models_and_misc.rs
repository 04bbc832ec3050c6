use std::cmp::Ordering;

use dan_hotstuff::chain_strength_comparer::{
    strongest_chain,
    BlockHeader,
    ChainStrengthComparer,
};
use dan_hotstuff::config::ConfigurationError;
use dan_hotstuff::engine::InstructionBuilder;
use dan_hotstuff::errors::DigitalAssetError;
use dan_hotstuff::instructions::{Instruction, InstructionSet};
use dan_hotstuff::models::asset_meta::{InstructionCaller, TemplateId, TokenId};
use dan_hotstuff::models::checkpoint::{CheckpointChallenge, SignerSignature};
use dan_hotstuff::models::committee::{Committee, NodeAddress};
use dan_hotstuff::models::payload::{Payload, SimplePayload};
use dan_hotstuff::models::shard::ShardKey;
use dan_hotstuff::models::tari_dan_payload::TariDanPayload;
use dan_hotstuff::models::tree_node_hash::TreeNodeHash;
use dan_hotstuff::models::validator_signature::Signature;
use dan_hotstuff::models::view_id::ViewId;
use dan_hotstuff::comms::xor_distance::XorDistance;
use dan_hotstuff::asset_processor::{ExecutionResult, InstructionLog, MemoryInstructionLog};
use dan_hotstuff::models::asset_meta::InstructionId;
use dan_hotstuff::models::hot_stuff_tree_node::HotStuffTreeNode;

#[test]
fn get_buckets_covers_the_space_from_zero() {
    let buckets = XorDistance::get_buckets(8);
    assert!(buckets.len() >= 1);
    assert_eq!(buckets[0].0, XorDistance(0));
    for b in &buckets {
        assert!(b.2 <= 8);
    }
}

#[test]
fn memory_instruction_log_keeps_order() {
    let mut log = MemoryInstructionLog::new();
    log.store(InstructionId(1), ExecutionResult { output: vec![1] });
    log.store(InstructionId(2), ExecutionResult { output: vec![2] });
    assert_eq!(log.entries().len(), 2);
    assert_eq!(log.entries()[0].0, InstructionId(1));
    assert_eq!(log.entries()[1].1.output, vec![2]);
}

#[test]
fn chain_strength_orders_by_accumulated_difficulty() {
    let comparer = strongest_chain().by_accumulated_difficulty().build();
    let weak = BlockHeader { accumulated_difficulty_squared: 10 };
    let strong = BlockHeader { accumulated_difficulty_squared: 20 };
    assert_eq!(comparer.compare(&weak, &strong), Ordering::Less);
    assert_eq!(comparer.compare(&strong, &weak), Ordering::Greater);
    // Ties keep the incumbent: never Equal.
    assert_eq!(comparer.compare(&weak, &weak), Ordering::Greater);
}

#[test]
fn instruction_builder_builds_named_method() {
    let instruction = InstructionBuilder::new().method(String::from("mint")).build();
    assert_eq!(instruction.method().as_str(), "mint");
}

#[test]
fn instruction_hash_is_content_addressed() {
    let a = Instruction::new(
        TemplateId::EditableMetadata,
        String::from("mint"),
        vec![1, 2],
        vec![0xAA],
        vec![ShardKey::new(vec![0])],
    );
    let b = Instruction::new(
        TemplateId::EditableMetadata,
        String::from("mint"),
        vec![1, 2],
        vec![0xBB],
        vec![ShardKey::new(vec![1])],
    );
    let c = Instruction::new(
        TemplateId::EditableMetadata,
        String::from("burn"),
        vec![1, 2],
        vec![0xAA],
        vec![ShardKey::new(vec![0])],
    );
    // The address covers method and args only.
    assert_eq!(a.hash(), b.hash());
    assert_ne!(a.hash(), c.hash());
    assert_eq!(a.hash().len(), 32);
    assert_eq!(&a.calculate_hash(), a.hash());
}

#[test]
fn dan_payload_flattens_instruction_shard_keys() {
    let a = Instruction::new(
        TemplateId::EditableMetadata,
        String::from("m1"),
        vec![1],
        vec![0xAA],
        vec![ShardKey::new(vec![0])],
    );
    let b = Instruction::new(
        TemplateId::EditableMetadata,
        String::from("m2"),
        vec![2],
        vec![0xBB],
        vec![ShardKey::new(vec![200])],
    );
    let payload = TariDanPayload::new(InstructionSet::from_instructions(vec![a, b]), None);
    assert!(!payload.is_empty());
    let keys = payload.involved_shard_keys();
    assert_eq!(keys.len(), 2);
    assert_eq!(keys[0].as_bytes(), &[0u8]);
    assert_eq!(keys[1].as_bytes(), &[200u8]);

    let empty = TariDanPayload::new(InstructionSet::empty(), None);
    assert!(empty.is_empty());
    assert_eq!(empty.involved_shard_keys().len(), 0);
}

#[test]
fn dan_payload_hash_is_deterministic() {
    let make = || {
        let a = Instruction::new(
            TemplateId::EditableMetadata,
            String::from("m1"),
            vec![1],
            vec![0xAA],
            vec![ShardKey::new(vec![0])],
        );
        TariDanPayload::new(InstructionSet::from_instructions(vec![a]), None)
    };
    let p1 = make();
    let p2 = make();
    assert_eq!(p1.consensus_hash(), p2.consensus_hash());
    assert_eq!(p1.consensus_hash().len(), 32);
    let (set, checkpoint) = p1.destruct();
    assert_eq!(set.instructions().len(), 1);
    assert!(checkpoint.is_none());
}

#[test]
fn tree_node_heights_and_genesis() {
    let node: HotStuffTreeNode<SimplePayload> =
        HotStuffTreeNode::genesis(SimplePayload::bring_up(5, 0), vec![0u8; 32]);
    assert_eq!(node.height(), 0);
    assert_eq!(node.parent().as_bytes(), &[0u8; 32]);
    let child: HotStuffTreeNode<SimplePayload> = HotStuffTreeNode::from_parent(
        node.hash().duplicate(),
        SimplePayload::bring_up(7, 1),
        vec![1u8; 32],
        1,
    );
    assert_eq!(child.height(), 1);
    assert_eq!(child.parent().as_bytes(), node.hash().as_bytes());
    assert_eq!(child.hash().as_bytes().len(), 32);
    assert_ne!(child.hash().as_bytes(), node.hash().as_bytes());
}

#[test]
fn checkpoint_signature_binds_challenge() {
    let challenge = CheckpointChallenge::new(&vec![7u8; 32], &vec![0u8; 32], &vec![0u8; 32], 0);
    assert_eq!(challenge.as_bytes().len(), 32);
    let secret = vec![42u8; 32];
    let sig_a = SignerSignature::sign(&secret, &challenge);
    let sig_b = SignerSignature::sign(&secret, &challenge);
    assert_eq!(sig_a.challenge_hash, sig_b.challenge_hash);
    assert_eq!(sig_a.signer_commitment, sig_b.signer_commitment);
    let other = SignerSignature::sign(&vec![43u8; 32], &challenge);
    assert_ne!(sig_a.signer_commitment, other.signer_commitment);
}

#[test]
fn small_model_types_behave() {
    let token = TokenId(vec![1, 2, 3]);
    assert_eq!(token.as_bytes(), &[1, 2, 3]);
    let caller = InstructionCaller { owner_token_id: token };
    assert_eq!(caller.owner_token_id().as_bytes(), &[1, 2, 3]);
    assert_eq!(TemplateId::parse("EditableMetadata"), TemplateId::EditableMetadata);
    assert_eq!(TemplateId::parse("unknown"), TemplateId::EditableMetadata);

    let sig = Signature {};
    let _combined = sig.combine(&Signature {});

    let err = ConfigurationError::new(
        String::from("port"),
        Some(String::from("-1")),
        String::from("out of range"),
    );
    assert_eq!(err.field().as_str(), "port");
    assert_eq!(err.message().as_str(), "out of range");

    assert_eq!(ViewId(4).next(), ViewId(5));
    assert!(ViewId(0).is_genesis());
    assert!(!ViewId(1).is_genesis());

    let committee = Committee::new(vec![NodeAddress(10), NodeAddress(11), NodeAddress(12)]);
    assert_eq!(committee.consensus_threshold(), 3);
    assert!(committee.contains(&NodeAddress(11)));
    assert!(!committee.contains(&NodeAddress(13)));
    assert_eq!(*committee.leader_for_view(ViewId(4)), NodeAddress(11));

    let zero = TreeNodeHash::zero();
    assert_eq!(zero.as_bytes(), &[0u8; 32]);
    assert_eq!(zero, TreeNodeHash(vec![0u8; 32]));

    assert!(matches!(
        DigitalAssetError::MissingShardCommittee,
        DigitalAssetError::MissingShardCommittee
    ));
}
