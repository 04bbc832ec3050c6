use vstd::prelude::*;
use crate::comms::xor_distance::{xor, XorDistance};

verus! {

/// The number of bytes in a node id.
pub const NODE_ID_ARRAY_SIZE: usize = 13;

/// Ways constructing a node id or a distance from bytes can fail.
#[derive(Clone, Copy, Debug, PartialEq, Eq, Structural)]
pub enum NodeIdError {
    IncorrectByteCount,
}

/// A node's network identifier: exactly 13 bytes.
#[derive(Clone, Debug, Hash)]
pub struct NodeId(pub Vec<u8>);

impl View for NodeId {
    type V = Seq<u8>;

    open spec fn view(&self) -> Seq<u8> {
        self.0@
    }
}

impl NodeId {
    pub open spec fn well_formed(&self) -> bool {
        self@.len() == 13
    }

    /// Builds a node id from exactly 13 bytes.
    pub fn from_bytes(bytes: &[u8]) -> (r: Result<NodeId, NodeIdError>)
        ensures
            r is Ok <==> bytes@.len() == 13,
            r matches Ok(n) ==> n@ == bytes@ && n.well_formed(),
            r is Err ==> r == Result::<NodeId, NodeIdError>::Err(NodeIdError::IncorrectByteCount),
    {
        if bytes.len() != NODE_ID_ARRAY_SIZE {
            return Err(NodeIdError::IncorrectByteCount);
        }
        let mut v: Vec<u8> = Vec::new();
        let mut i: usize = 0;
        while i < NODE_ID_ARRAY_SIZE
            invariant
                i <= 13,
                bytes@.len() == 13,
                v@ == bytes@.subrange(0, i as int),
            decreases 13 - i,
        {
            v.push(bytes[i]);
            i = i + 1;
            proof {
                assert(v@ =~= bytes@.subrange(0, i as int));
            }
        }
        proof {
            assert(v@ =~= bytes@);
        }
        Ok(NodeId(v))
    }

    /// Builds a node id from the first 13 of at least 13 bytes.
    pub fn try_from(elements: &[u8]) -> (r: Result<NodeId, NodeIdError>)
        ensures
            r is Ok <==> elements@.len() >= 13,
            r matches Ok(n) ==> n@ == elements@.subrange(0, 13) && n.well_formed(),
            r is Err ==> r == Result::<NodeId, NodeIdError>::Err(NodeIdError::IncorrectByteCount),
    {
        if elements.len() < NODE_ID_ARRAY_SIZE {
            return Err(NodeIdError::IncorrectByteCount);
        }
        let mut v: Vec<u8> = Vec::new();
        let mut i: usize = 0;
        while i < NODE_ID_ARRAY_SIZE
            invariant
                i <= 13,
                elements@.len() >= 13,
                v@ == elements@.subrange(0, i as int),
            decreases 13 - i,
        {
            v.push(elements[i]);
            i = i + 1;
            proof {
                assert(v@ =~= elements@.subrange(0, i as int));
            }
        }
        Ok(NodeId(v))
    }

    pub fn as_bytes(&self) -> (r: &[u8])
        ensures
            r@ == self@,
    {
        self.0.as_slice()
    }

    /// The XOR distance between this node id and another.
    pub fn distance(&self, other: &NodeId) -> (r: XorDistance)
        requires
            self.well_formed(),
            other.well_formed(),
        ensures
            r.0 == crate::comms::xor_distance::spec_xor_value(self@, other@),
    {
        let r = xor(self.as_bytes(), other.as_bytes());
        proof {
            assert(self@.subrange(0, 13) =~= self@);
            assert(other@.subrange(0, 13) =~= other@);
        }
        r
    }
}

} // verus!
