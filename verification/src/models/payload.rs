use vstd::prelude::*;
use crate::bytes_util::{clone_bytes, zero_bytes};
use crate::models::shard::ShardKey;

verus! {

/// The value a committee agrees on. A payload declares which shard keys it
/// touches and exposes a content hash that consensus signs and chains.
pub trait Payload: Sized {
    /// True when the payload carries no work.
    spec fn spec_is_empty(&self) -> bool;

    /// The shard keys the payload touches, as byte strings.
    spec fn spec_shard_keys(&self) -> Seq<Seq<u8>>;

    /// The content hash bound into proposals and vote challenges.
    spec fn spec_hash(&self) -> Seq<u8>;

    fn is_empty(&self) -> (r: bool)
        ensures
            r == self.spec_is_empty(),
    ;

    fn involved_shard_keys(&self) -> (r: Vec<ShardKey>)
        ensures
            r@.len() == self.spec_shard_keys().len(),
            forall|i: int|
                0 <= i < r@.len() ==> r@[i]@ == self.spec_shard_keys()[i],
    ;

    fn consensus_hash(&self) -> (r: Vec<u8>)
        ensures
            r@ == self.spec_hash(),
    ;

    /// A fresh payload with the same model.
    fn duplicate(&self) -> (r: Self)
        ensures
            r.spec_is_empty() == self.spec_is_empty(),
            r.spec_shard_keys() == self.spec_shard_keys(),
            r.spec_hash() == self.spec_hash(),
    ;
}

/// A minimal concrete payload: either nothing, or one state change addressed
/// at a single shard key.
#[derive(Debug, Clone)]
pub enum SimplePayload {
    Empty,
    StateChange { is_up: bool, data: Option<u8>, shard_key: ShardKey },
}

impl SimplePayload {
    pub fn bring_up(data: u8, shard_key: u8) -> (r: SimplePayload)
        ensures
            !r.spec_is_empty(),
            r.spec_shard_keys() == seq![seq![shard_key]],
    {
        let mut bytes: Vec<u8> = Vec::new();
        bytes.push(shard_key);
        let r = SimplePayload::StateChange {
            is_up: true,
            data: Some(data),
            shard_key: ShardKey::new(bytes),
        };
        proof {
            assert(r.spec_shard_keys() =~~= seq![seq![shard_key]]);
        }
        r
    }

    pub fn bring_down(shard_key: u8) -> (r: SimplePayload)
        ensures
            !r.spec_is_empty(),
            r.spec_shard_keys() == seq![seq![shard_key]],
    {
        let mut bytes: Vec<u8> = Vec::new();
        bytes.push(shard_key);
        let r = SimplePayload::StateChange {
            is_up: false,
            data: None,
            shard_key: ShardKey::new(bytes),
        };
        proof {
            assert(r.spec_shard_keys() =~~= seq![seq![shard_key]]);
        }
        r
    }
}

impl Payload for SimplePayload {
    open spec fn spec_is_empty(&self) -> bool {
        self is Empty
    }

    open spec fn spec_shard_keys(&self) -> Seq<Seq<u8>> {
        match self {
            SimplePayload::Empty => Seq::empty(),
            SimplePayload::StateChange { shard_key, .. } => seq![shard_key@],
        }
    }

    open spec fn spec_hash(&self) -> Seq<u8> {
        match self {
            SimplePayload::Empty => Seq::new(32, |i: int| 0u8),
            SimplePayload::StateChange { shard_key, .. } => shard_key@,
        }
    }

    fn is_empty(&self) -> (r: bool) {
        match self {
            SimplePayload::Empty => true,
            SimplePayload::StateChange { .. } => false,
        }
    }

    fn involved_shard_keys(&self) -> (r: Vec<ShardKey>) {
        match self {
            SimplePayload::Empty => Vec::new(),
            SimplePayload::StateChange { shard_key, .. } => {
                let mut r: Vec<ShardKey> = Vec::new();
                r.push(shard_key.duplicate());
                r
            },
        }
    }

    fn consensus_hash(&self) -> (r: Vec<u8>) {
        match self {
            SimplePayload::Empty => {
                let r = zero_bytes(32);
                proof {
                    assert(r@ =~= Seq::new(32, |i: int| 0u8));
                }
                r
            },
            SimplePayload::StateChange { shard_key, .. } => clone_bytes(&shard_key.0),
        }
    }

    fn duplicate(&self) -> (r: Self) {
        match self {
            SimplePayload::Empty => SimplePayload::Empty,
            SimplePayload::StateChange { is_up, data, shard_key } => {
                SimplePayload::StateChange {
                    is_up: *is_up,
                    data: match data {
                        Some(d) => Some(*d),
                        None => None,
                    },
                    shard_key: shard_key.duplicate(),
                }
            },
        }
    }
}

} // verus!
