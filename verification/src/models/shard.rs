use vstd::prelude::*;

verus! {

/// The byte strings of a sequence of shard keys, in order.
pub open spec fn key_views(s: Seq<ShardKey>) -> Seq<Seq<u8>> {
    s.map(|i: int, k: ShardKey| k@)
}

/// Integer-valued partition identifier. Shards partition both the validator
/// committee and the state namespace.
#[derive(Clone, Copy, Debug, PartialEq, Eq, Structural, Hash)]
pub struct Shard {
    pub id: u64,
}

/// Key addressing a slice of the state namespace; the shard mapper routes a
/// key to a shard by its first byte.
#[derive(Clone, Debug)]
pub struct ShardKey(pub Vec<u8>);

impl View for ShardKey {
    type V = Seq<u8>;

    open spec fn view(&self) -> Seq<u8> {
        self.0@
    }
}

impl ShardKey {
    pub fn new(bytes: Vec<u8>) -> (r: ShardKey)
        ensures
            r@ == bytes@,
    {
        ShardKey(bytes)
    }

    pub fn as_bytes(&self) -> (r: &[u8])
        ensures
            r@ == self@,
    {
        self.0.as_slice()
    }

    /// A fresh key holding the same bytes.
    pub fn duplicate(&self) -> (r: ShardKey)
        ensures
            r@ == self@,
    {
        ShardKey(crate::bytes_util::clone_bytes(&self.0))
    }
}

} // verus!
