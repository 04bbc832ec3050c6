//! Chain-selection comparators for the base layer: order two chain tips by
//! accumulated work, with lexicographic chaining of tie-breakers.

use vstd::prelude::*;
use core::cmp::Ordering;

verus! {

/// The slice of a block header this comparator family reads: the chain's
/// accumulated difficulty, squared, as an integer commitment.
#[derive(Clone, Copy, Debug, PartialEq, Eq, Structural)]
pub struct BlockHeader {
    pub accumulated_difficulty_squared: u128,
}

impl BlockHeader {
    pub fn total_accumulated_difficulty_inclusive_squared(&self) -> (r: u128)
        ensures
            r == self.accumulated_difficulty_squared,
    {
        self.accumulated_difficulty_squared
    }
}

/// Orders two chain tips by strength.
pub trait ChainStrengthComparer {
    spec fn spec_compare(&self, a: BlockHeader, b: BlockHeader) -> Ordering;

    fn compare(&self, a: &BlockHeader, b: &BlockHeader) -> (r: Ordering)
        ensures
            r == self.spec_compare(*a, *b),
    ;
}

/// Strictly orders by accumulated difficulty squared; a tie counts as
/// `Greater`, keeping the incumbent chain.
#[derive(Default, Debug, Clone, Copy)]
pub struct AccumulatedDifficultySquaredComparer {}

impl ChainStrengthComparer for AccumulatedDifficultySquaredComparer {
    open spec fn spec_compare(&self, a: BlockHeader, b: BlockHeader) -> Ordering {
        if a.accumulated_difficulty_squared < b.accumulated_difficulty_squared {
            Ordering::Less
        } else {
            Ordering::Greater
        }
    }

    fn compare(&self, a: &BlockHeader, b: &BlockHeader) -> (r: Ordering) {
        let a_val = a.total_accumulated_difficulty_inclusive_squared();
        let b_val = b.total_accumulated_difficulty_inclusive_squared();
        if a_val < b_val {
            Ordering::Less
        } else {
            Ordering::Greater
        }
    }
}

/// A concrete comparator: either the difficulty comparer, or two
/// comparators chained with `ThenComparer`.
#[derive(Debug)]
pub enum ChainComparer {
    AccumulatedDifficultySquared(AccumulatedDifficultySquaredComparer),
    Then(ThenComparer),
}

/// Applies `before`, falling back to `after` on a tie.
#[derive(Debug)]
pub struct ThenComparer {
    pub before: Box<ChainComparer>,
    pub after: Box<ChainComparer>,
}

impl ThenComparer {
    pub fn new(before: Box<ChainComparer>, after: Box<ChainComparer>) -> (r: ThenComparer)
        ensures
            r.before == before,
            r.after == after,
    {
        ThenComparer { before, after }
    }
}

/// How a concrete comparer orders two headers.
pub open spec fn spec_chain_compare(c: ChainComparer, a: BlockHeader, b: BlockHeader) -> Ordering
    decreases c,
{
    match c {
        ChainComparer::AccumulatedDifficultySquared(acc) => acc.spec_compare(a, b),
        ChainComparer::Then(t) => {
            match spec_chain_compare(*t.before, a, b) {
                Ordering::Equal => spec_chain_compare(*t.after, a, b),
                Ordering::Less => Ordering::Less,
                Ordering::Greater => Ordering::Greater,
            }
        },
    }
}

impl ChainStrengthComparer for ChainComparer {
    open spec fn spec_compare(&self, a: BlockHeader, b: BlockHeader) -> Ordering {
        spec_chain_compare(*self, a, b)
    }

    fn compare(&self, a: &BlockHeader, b: &BlockHeader) -> (r: Ordering)
        decreases *self,
    {
        match self {
            ChainComparer::AccumulatedDifficultySquared(acc) => acc.compare(a, b),
            ChainComparer::Then(t) => {
                match t.before.compare(a, b) {
                    Ordering::Equal => t.after.compare(a, b),
                    Ordering::Less => Ordering::Less,
                    Ordering::Greater => Ordering::Greater,
                }
            },
        }
    }
}

/// Builds a chained comparator, strongest criterion first.
#[derive(Debug)]
pub struct ChainStrengthComparerBuilder {
    pub target: Option<ChainComparer>,
}

impl ChainStrengthComparerBuilder {
    pub fn new() -> (r: ChainStrengthComparerBuilder)
        ensures
            r.target is None,
    {
        ChainStrengthComparerBuilder { target: None }
    }

    fn add_comparer_as_then(self, inner: ChainComparer) -> (r: ChainStrengthComparerBuilder)
        ensures
            r.target is Some,
            self.target is None ==> r.target == Some(inner),
            self.target matches Some(t) ==> r.target == Some(
                ChainComparer::Then(ThenComparer { before: Box::new(t), after: Box::new(inner) }),
            ),
    {
        let target = match self.target {
            Some(t) => Some(
                ChainComparer::Then(ThenComparer::new(Box::new(t), Box::new(inner))),
            ),
            None => Some(inner),
        };
        ChainStrengthComparerBuilder { target }
    }

    pub fn by_accumulated_difficulty(self) -> (r: ChainStrengthComparerBuilder)
        ensures
            r.target is Some,
            self.target is None ==> r.target == Some(
                ChainComparer::AccumulatedDifficultySquared(
                    AccumulatedDifficultySquaredComparer {  },
                ),
            ),
    {
        self.add_comparer_as_then(
            ChainComparer::AccumulatedDifficultySquared(AccumulatedDifficultySquaredComparer {  }),
        )
    }

    /// The built comparator; building an empty chain is a caller error.
    pub fn build(self) -> (r: ChainComparer)
        requires
            self.target is Some,
        ensures
            Some(r) == self.target,
    {
        match self.target {
            Some(t) => t,
            None => {
                proof {
                    assert(false);
                }
                ChainComparer::AccumulatedDifficultySquared(
                    AccumulatedDifficultySquaredComparer {  },
                )
            },
        }
    }
}

/// Starts a chain-strength comparator chain.
pub fn strongest_chain() -> (r: ChainStrengthComparerBuilder)
    ensures
        r.target is None,
{
    ChainStrengthComparerBuilder::new()
}

} // verus!
