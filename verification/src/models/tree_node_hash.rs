use vstd::prelude::*;
use crate::bytes_util::{clone_bytes, eq_bytes, zero_bytes};

verus! {

/// Content address of a proposed tree node.
#[derive(Clone, Debug, Hash)]
pub struct TreeNodeHash(pub Vec<u8>);

impl View for TreeNodeHash {
    type V = Seq<u8>;

    open spec fn view(&self) -> Seq<u8> {
        self.0@
    }
}

impl TreeNodeHash {
    /// The all-zero 32-byte hash, the parent of the genesis node.
    pub fn zero() -> (r: TreeNodeHash)
        ensures
            r@.len() == 32,
            forall|j: int| 0 <= j < 32 ==> r@[j] == 0u8,
    {
        TreeNodeHash(zero_bytes(32))
    }

    pub fn as_bytes(&self) -> (r: &[u8])
        ensures
            r@ == self@,
    {
        self.0.as_slice()
    }

    /// A fresh hash holding the same bytes.
    pub fn duplicate(&self) -> (r: TreeNodeHash)
        ensures
            r@ == self@,
    {
        TreeNodeHash(clone_bytes(&self.0))
    }
}

impl PartialEq for TreeNodeHash {
    fn eq(&self, other: &Self) -> (r: bool) {
        eq_bytes(&self.0, &other.0)
    }
}

impl vstd::std_specs::cmp::PartialEqSpecImpl for TreeNodeHash {
    open spec fn obeys_eq_spec() -> bool {
        true
    }

    open spec fn eq_spec(&self, other: &Self) -> bool {
        self.0@ == other.0@
    }
}

} // verus!
