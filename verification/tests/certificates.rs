use dan_hotstuff::errors::DigitalAssetError;
use dan_hotstuff::models::committee::{Committee, NodeAddress};
use dan_hotstuff::models::hot_stuff_message::HotStuffMessage;
use dan_hotstuff::models::hot_stuff_message_type::HotStuffMessageType;
use dan_hotstuff::models::payload::SimplePayload;
use dan_hotstuff::models::quorum_certificate::QuorumCertificate;
use dan_hotstuff::models::shard::Shard;
use dan_hotstuff::models::shard_hash_map::ShardHashMap;
use dan_hotstuff::models::tree_node_hash::TreeNodeHash;
use dan_hotstuff::models::validator_signature::ValidatorSignature;
use dan_hotstuff::models::view_id::ViewId;
use dan_hotstuff::services::signing::SigningService;
use dan_hotstuff::validation::validate_quorum_certificate;

fn shard0() -> Shard {
    Shard { id: 0 }
}

fn committee4() -> Committee {
    Committee::new(vec![NodeAddress(0), NodeAddress(1), NodeAddress(2), NodeAddress(3)])
}

fn vote_map() -> ShardHashMap {
    let mut map = ShardHashMap::new();
    map.insert(shard0(), TreeNodeHash(vec![3u8; 32])).unwrap();
    map
}

fn signed_qc(signers: &[u64]) -> QuorumCertificate {
    let map = vote_map();
    let challenge = HotStuffMessage::<SimplePayload>::vote_challenge(
        HotStuffMessageType::PreCommit,
        ViewId(7),
        &map,
    );
    let signing = SigningService::new();
    let mut signatures: Vec<ValidatorSignature> = Vec::new();
    for s in signers {
        signatures.push(signing.sign(&NodeAddress(*s), &challenge).unwrap());
    }
    QuorumCertificate::new(HotStuffMessageType::PreCommit, ViewId(7), map, signatures)
}

#[test]
fn quorum_needs_three_distinct_signatures_of_four() {
    let committee = committee4();
    let required = vec![shard0()];

    // Committee of 4 = 3f+1 with f = 1: threshold is 3 = n - f.
    assert_eq!(committee.consensus_threshold(), 3);

    // Too few distinct signatures: refused.
    let qc = signed_qc(&[0, 1]);
    assert!(!validate_quorum_certificate(&qc, &committee, &required));

    // The same signer three times is one distinct signature: refused.
    let qc = signed_qc(&[0, 0, 0]);
    assert!(!validate_quorum_certificate(&qc, &committee, &required));

    // A non-member does not count toward the threshold.
    let qc = signed_qc(&[0, 1, 42]);
    assert!(!validate_quorum_certificate(&qc, &committee, &required));

    // Three distinct members: accepted.
    let qc = signed_qc(&[0, 1, 3]);
    assert!(validate_quorum_certificate(&qc, &committee, &required));
}

#[test]
fn quorum_requires_coverage_of_required_shards() {
    let committee = committee4();
    let qc = signed_qc(&[0, 1, 3]);
    // Shard 5 has no recorded hash in the certificate.
    let required = vec![shard0(), Shard { id: 5 }];
    assert!(!validate_quorum_certificate(&qc, &committee, &required));
}

#[test]
fn signature_over_wrong_challenge_does_not_count() {
    let committee = committee4();
    let map = vote_map();
    let signing = SigningService::new();
    // Signatures over some unrelated bytes, not the vote challenge.
    let bogus = vec![1u8, 2, 3];
    let mut signatures: Vec<ValidatorSignature> = Vec::new();
    for s in [0u64, 1, 2] {
        signatures.push(signing.sign(&NodeAddress(s), &bogus).unwrap());
    }
    let qc = QuorumCertificate::new(HotStuffMessageType::PreCommit, ViewId(7), map, signatures);
    assert!(!validate_quorum_certificate(&qc, &committee, &vec![shard0()]));
}

#[test]
fn genesis_qc_round_trip() {
    let qc = QuorumCertificate::genesis(TreeNodeHash::zero());
    assert!(qc.matches(HotStuffMessageType::Genesis, ViewId(0)));
    assert!(!qc.matches(HotStuffMessageType::Prepare, ViewId(0)));
    assert!(!qc.matches(HotStuffMessageType::Genesis, ViewId(1)));
    assert_eq!(qc.signatures().len(), 0);
    assert_eq!(qc.node_hashes().len(), 0);
    // Accepted as a justify without threshold checks.
    assert!(validate_quorum_certificate(&qc, &committee4(), &Vec::new()));
}

#[test]
fn message_type_codes_round_trip() {
    let all = [
        HotStuffMessageType::NewView,
        HotStuffMessageType::Prepare,
        HotStuffMessageType::PreCommit,
        HotStuffMessageType::Commit,
        HotStuffMessageType::Decide,
        HotStuffMessageType::Genesis,
    ];
    for t in all {
        let back = HotStuffMessageType::try_from_u8(t.as_u8()).unwrap();
        assert_eq!(back, t);
    }
    assert_eq!(HotStuffMessageType::NewView.as_u8(), 1);
    assert_eq!(HotStuffMessageType::Genesis.as_u8(), 255);
    assert_eq!(
        HotStuffMessageType::try_from_u8(9).unwrap_err(),
        DigitalAssetError::InvalidMessageType
    );
}

#[test]
fn vote_challenge_is_a_digest_not_the_input() {
    let map = vote_map();
    let a = HotStuffMessage::<SimplePayload>::vote_challenge(
        HotStuffMessageType::PreCommit,
        ViewId(7),
        &map,
    );
    let b = HotStuffMessage::<SimplePayload>::vote_challenge(
        HotStuffMessageType::PreCommit,
        ViewId(8),
        &map,
    );
    assert_eq!(a.len(), 32);
    assert_eq!(b.len(), 32);
    // A different view gives a different digest.
    assert_ne!(a, b);
}
