use vstd::prelude::*;
use vstd::bytes::{spec_u32_to_le_bytes, u32_to_le_bytes};
use crate::bytes_util::{clone_bytes, extend_bytes};
use crate::hashing::{blake256, blake256_of};
use crate::models::payload::Payload;
use crate::models::tree_node_hash::TreeNodeHash;

verus! {

/// The byte string whose digest is a node's content address: parent hash,
/// payload hash, state root, then the height in little-endian bytes.
pub open spec fn spec_node_preimage(
    parent: Seq<u8>,
    payload_hash: Seq<u8>,
    state_root: Seq<u8>,
    height: u32,
) -> Seq<u8> {
    parent + payload_hash + state_root + spec_u32_to_le_bytes(height)
}

/// The content address of a node with the given fields.
pub open spec fn spec_node_hash(
    parent: Seq<u8>,
    payload_hash: Seq<u8>,
    state_root: Seq<u8>,
    height: u32,
) -> Seq<u8> {
    blake256_of(spec_node_preimage(parent, payload_hash, state_root, height))
}

/// A proposal: a payload bound to a parent link, a state-root commitment and
/// a height. Content-addressed and immutable once created.
#[derive(Debug)]
pub struct HotStuffTreeNode<P: Payload> {
    pub parent: TreeNodeHash,
    pub payload: P,
    pub state_root: Vec<u8>,
    pub height: u32,
    pub hash: TreeNodeHash,
}

impl<P: Payload> HotStuffTreeNode<P> {
    pub open spec fn spec_parent(&self) -> Seq<u8> {
        self.parent@
    }

    pub open spec fn spec_payload(&self) -> P {
        self.payload
    }

    pub open spec fn spec_state_root(&self) -> Seq<u8> {
        self.state_root@
    }

    pub open spec fn spec_height(&self) -> u32 {
        self.height
    }

    pub open spec fn spec_hash(&self) -> Seq<u8> {
        self.hash@
    }

    /// The stored hash is the content address of the stored fields.
    pub open spec fn well_formed(&self) -> bool {
        self.hash@ == spec_node_hash(
            self.parent@,
            self.payload.spec_hash(),
            self.state_root@,
            self.height,
        )
    }

    fn compute_hash(
        parent: &TreeNodeHash,
        payload: &P,
        state_root: &Vec<u8>,
        height: u32,
    ) -> (r: TreeNodeHash)
        ensures
            r@ == spec_node_hash(parent@, payload.spec_hash(), state_root@, height),
    {
        let mut preimage: Vec<u8> = Vec::new();
        extend_bytes(&mut preimage, parent.as_bytes());
        let payload_hash = payload.consensus_hash();
        extend_bytes(&mut preimage, payload_hash.as_slice());
        extend_bytes(&mut preimage, state_root.as_slice());
        let height_bytes = u32_to_le_bytes(height);
        extend_bytes(&mut preimage, height_bytes.as_slice());
        proof {
            assert(preimage@ =~= spec_node_preimage(
                parent@,
                payload.spec_hash(),
                state_root@,
                height,
            ));
        }
        TreeNodeHash(blake256(&preimage))
    }

    /// The first node of a chain: parent is the all-zero hash, height 0.
    pub fn genesis(payload: P, state_root: Vec<u8>) -> (r: HotStuffTreeNode<P>)
        ensures
            r.well_formed(),
            r.spec_parent().len() == 32,
            forall|j: int| 0 <= j < 32 ==> r.spec_parent()[j] == 0u8,
            r.spec_payload().spec_hash() == payload.spec_hash(),
            r.spec_payload().spec_is_empty() == payload.spec_is_empty(),
            r.spec_payload().spec_shard_keys() == payload.spec_shard_keys(),
            r.spec_state_root() == state_root@,
            r.spec_height() == 0,
    {
        let parent = TreeNodeHash::zero();
        let hash = Self::compute_hash(&parent, &payload, &state_root, 0);
        HotStuffTreeNode { parent, payload, state_root, height: 0, hash }
    }

    /// A node extending `parent` at the given height.
    pub fn from_parent(
        parent: TreeNodeHash,
        payload: P,
        state_root: Vec<u8>,
        height: u32,
    ) -> (r: HotStuffTreeNode<P>)
        ensures
            r.well_formed(),
            r.spec_parent() == parent@,
            r.spec_payload().spec_hash() == payload.spec_hash(),
            r.spec_payload().spec_is_empty() == payload.spec_is_empty(),
            r.spec_payload().spec_shard_keys() == payload.spec_shard_keys(),
            r.spec_state_root() == state_root@,
            r.spec_height() == height,
    {
        let hash = Self::compute_hash(&parent, &payload, &state_root, height);
        HotStuffTreeNode { parent, payload, state_root, height, hash }
    }

    pub fn hash(&self) -> (r: &TreeNodeHash)
        ensures
            r@ == self.spec_hash(),
    {
        &self.hash
    }

    /// Recomputes the content address from the fields.
    pub fn calculate_hash(&self) -> (r: TreeNodeHash)
        ensures
            r@ == spec_node_hash(
                self.spec_parent(),
                self.spec_payload().spec_hash(),
                self.spec_state_root(),
                self.spec_height(),
            ),
            self.well_formed() ==> r@ == self.spec_hash(),
    {
        Self::compute_hash(&self.parent, &self.payload, &self.state_root, self.height)
    }

    pub fn parent(&self) -> (r: &TreeNodeHash)
        ensures
            r@ == self.spec_parent(),
    {
        &self.parent
    }

    pub fn payload(&self) -> (r: &P)
        ensures
            *r == self.spec_payload(),
    {
        &self.payload
    }

    pub fn state_root(&self) -> (r: &Vec<u8>)
        ensures
            r@ == self.spec_state_root(),
    {
        &self.state_root
    }

    pub fn height(&self) -> (r: u32)
        ensures
            r == self.spec_height(),
    {
        self.height
    }

    /// A fresh node with the same model.
    pub fn duplicate(&self) -> (r: HotStuffTreeNode<P>)
        ensures
            r.spec_parent() == self.spec_parent(),
            r.spec_payload().spec_hash() == self.spec_payload().spec_hash(),
            r.spec_payload().spec_is_empty() == self.spec_payload().spec_is_empty(),
            r.spec_payload().spec_shard_keys() == self.spec_payload().spec_shard_keys(),
            r.spec_state_root() == self.spec_state_root(),
            r.spec_height() == self.spec_height(),
            r.spec_hash() == self.spec_hash(),
            self.well_formed() ==> r.well_formed(),
    {
        HotStuffTreeNode {
            parent: self.parent.duplicate(),
            payload: self.payload.duplicate(),
            state_root: clone_bytes(&self.state_root),
            height: self.height,
            hash: self.hash.duplicate(),
        }
    }
}

} // verus!
