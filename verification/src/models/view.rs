use vstd::prelude::*;
use crate::models::view_id::ViewId;

verus! {

/// One round of consensus as seen by one node: the round number and whether
/// this node leads it. Recomputed by the worker before every phase.
#[derive(Clone, Copy, Debug, PartialEq, Eq, Structural)]
pub struct View {
    pub view_id: ViewId,
    pub is_leader: bool,
}

impl View {
    pub fn view_id(&self) -> (r: ViewId)
        ensures
            r == self.view_id,
    {
        self.view_id
    }

    pub fn is_leader(&self) -> (r: bool)
        ensures
            r == self.is_leader,
    {
        self.is_leader
    }
}

} // verus!
