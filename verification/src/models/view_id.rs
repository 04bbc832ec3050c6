use vstd::prelude::*;

verus! {

/// Monotonically increasing 64-bit counter naming one round of consensus.
/// View 0 is the genesis view.
#[derive(Clone, Copy, Debug, PartialEq, Eq, Structural, Hash)]
pub struct ViewId(pub u64);

impl ViewId {
    pub fn as_u64(&self) -> (r: u64)
        ensures
            r == self.0,
    {
        self.0
    }

    pub fn is_genesis(&self) -> (r: bool)
        ensures
            r == (self.0 == 0),
    {
        self.0 == 0
    }

    /// The view that follows this one.
    pub fn next(&self) -> (r: ViewId)
        requires
            self.0 < u64::MAX,
        ensures
            r.0 == self.0 + 1,
    {
        ViewId(self.0 + 1)
    }
}

} // verus!
