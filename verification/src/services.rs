//! Concrete collaborators consumed by the phase handlers: committee
//! resolution and signing.

pub mod committee_manager;
pub mod mocks;
pub mod payload_processor;
pub mod signing;

use vstd::prelude::*;

verus! {

} // verus!
