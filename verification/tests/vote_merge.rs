use dan_hotstuff::errors::DigitalAssetError;
use dan_hotstuff::models::merged_vote_builder::MergedVoteBuilder;
use dan_hotstuff::models::shard::Shard;
use dan_hotstuff::models::tree_node_hash::TreeNodeHash;

fn shard(id: u64) -> Shard {
    Shard { id }
}

fn hash(b: u8) -> TreeNodeHash {
    TreeNodeHash(vec![b; 32])
}

#[test]
fn is_complete_iff_every_required_shard_recorded() {
    let mut builder = MergedVoteBuilder::new();
    let required = vec![shard(0), shard(1)];

    assert!(!builder.is_complete(&required));

    builder.add(shard(0), hash(1)).unwrap();
    assert!(!builder.is_complete(&required));

    builder.add(shard(1), hash(2)).unwrap();
    assert!(builder.is_complete(&required));

    // An empty requirement is trivially complete.
    assert!(builder.is_complete(&Vec::new()));
}

#[test]
fn conflicting_hash_for_a_shard_is_refused() {
    let mut builder = MergedVoteBuilder::new();
    builder.add(shard(0), hash(1)).unwrap();
    // The identical hash again changes nothing and is fine.
    builder.add(shard(0), hash(1)).unwrap();
    // A different hash for the same shard is Byzantine evidence.
    assert_eq!(
        builder.add(shard(0), hash(9)).unwrap_err(),
        DigitalAssetError::ConflictingVoteForShard
    );
    // The recorded hash is unchanged.
    assert!(builder.is_complete(&vec![shard(0)]));
}

#[test]
fn build_and_clear_hands_votes_out_and_resets() {
    let mut builder = MergedVoteBuilder::new();
    builder.add(shard(3), hash(1)).unwrap();
    builder.add(shard(1), hash(2)).unwrap();
    let map = builder.build_and_clear();
    assert_eq!(map.len(), 2);
    // Entries come out in ascending shard order.
    assert_eq!(map.shard_at(0), shard(1));
    assert_eq!(map.shard_at(1), shard(3));
    assert!(!builder.is_complete(&vec![shard(1)]));
    assert!(builder.is_complete(&Vec::new()));
}
