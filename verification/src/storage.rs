//! In-memory state and chain stores behind the unit-of-work discipline: a
//! unit of work is scoped to one phase step and is committed or discarded
//! whole.

pub mod chain_db;
pub mod state_db;

use vstd::prelude::*;

verus! {

} // verus!
