use vstd::prelude::*;
use crate::models::view_id::ViewId;

verus! {

/// Opaque identity of one validator node.
#[derive(Clone, Copy, Debug, PartialEq, Eq, Structural, Hash)]
pub struct NodeAddress(pub u64);

/// Ordered set of validator addresses for one shard at one view.
///
/// A committee of size `n` tolerates `f = (n - 1) / 3` Byzantine members and
/// reaches consensus at `n - f` votes; a committee built for a given `f` must
/// therefore hold `n >= 3f + 1` members.
#[derive(Clone, Debug)]
pub struct Committee {
    pub members: Vec<NodeAddress>,
}

impl Committee {
    /// The number of Byzantine members the committee tolerates.
    pub open spec fn spec_max_failures(&self) -> int {
        (self.members@.len() - 1) / 3
    }

    /// Votes needed for a quorum: `n - f`.
    pub open spec fn spec_consensus_threshold(&self) -> int {
        self.members@.len() - self.spec_max_failures()
    }

    pub fn new(members: Vec<NodeAddress>) -> (r: Committee)
        ensures
            r.members@ == members@,
    {
        Committee { members }
    }

    pub fn len(&self) -> (r: usize)
        ensures
            r == self.members@.len(),
    {
        self.members.len()
    }

    pub fn contains(&self, addr: &NodeAddress) -> (r: bool)
        ensures
            r == self.members@.contains(*addr),
    {
        let mut i: usize = 0;
        while i < self.members.len()
            invariant
                i <= self.members@.len(),
                forall|j: int| 0 <= j < i ==> self.members@[j] != *addr,
            decreases self.members@.len() - i,
        {
            if self.members[i].0 == addr.0 {
                return true;
            }
            i = i + 1;
        }
        proof {
            assert(!self.members@.contains(*addr));
        }
        false
    }

    /// Deterministic leader rotation: the member at `view % n`.
    pub fn leader_for_view(&self, view_id: ViewId) -> (r: &NodeAddress)
        requires
            self.members@.len() > 0,
        ensures
            *r == self.members@[view_id.0 as int % self.members@.len() as int],
    {
        let n = self.members.len();
        let idx = (view_id.0 % (n as u64)) as usize;
        proof {
            assert(((view_id.0 as int) % (n as int)) < (n as int) && ((view_id.0 as int) % (
            n as int)) >= 0) by (nonlinear_arith)
                requires
                    n > 0,
            ;
        }
        &self.members[idx]
    }

    /// A fresh vector holding the members in order.
    pub fn duplicate_members(&self) -> (r: Vec<NodeAddress>)
        ensures
            r@ == self.members@,
    {
        let mut r: Vec<NodeAddress> = Vec::new();
        let mut i: usize = 0;
        while i < self.members.len()
            invariant
                i <= self.members@.len(),
                r@ == self.members@.subrange(0, i as int),
            decreases self.members@.len() - i,
        {
            r.push(self.members[i]);
            i = i + 1;
            proof {
                assert(r@ =~= self.members@.subrange(0, i as int));
            }
        }
        proof {
            assert(r@ =~= self.members@);
        }
        r
    }

    /// Votes needed before this committee has agreed: `n - f`.
    pub fn consensus_threshold(&self) -> (r: usize)
        requires
            self.members@.len() > 0,
        ensures
            r == self.spec_consensus_threshold(),
    {
        self.members.len() - (self.members.len() - 1) / 3
    }
}

/// Threshold safety: a committee of size `n = 3f + 1` has consensus threshold
/// exactly `n - f`, so nothing counted against this committee's threshold can
/// rest on fewer than `n - f` votes.
pub proof fn lemma_threshold_is_supermajority(c: Committee, f: int)
    requires
        f >= 0,
        c.members@.len() == 3 * f + 1,
    ensures
        c.spec_consensus_threshold() == c.members@.len() - f,
        c.spec_max_failures() == f,
{
    assert((3 * f + 1 - 1) / 3 == f) by (nonlinear_arith)
        requires f >= 0;
}

} // verus!
