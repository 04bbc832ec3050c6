//! The phase handlers and the worker state machine that drives them.

pub mod commit_state;
pub mod consensus_worker;
pub mod prepare;

use vstd::prelude::*;

verus! {

} // verus!
