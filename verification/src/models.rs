//! Data model of the consensus core: views, shards, committees, hashes,
//! payloads, tree nodes, certificates and wire messages.

pub mod asset_meta;
pub mod checkpoint;
pub mod committee;
pub mod hot_stuff_message;
pub mod hot_stuff_message_type;
pub mod hot_stuff_tree_node;
pub mod merged_vote_builder;
pub mod quorum_certificate;
pub mod validator_signature;
pub mod payload;
pub mod shard;
pub mod tari_dan_payload;
pub mod shard_hash_map;
pub mod tree_node_hash;
pub mod view;
pub mod view_id;

use vstd::prelude::*;

verus! {

} // verus!
