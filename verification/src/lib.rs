//! A sharded, HotStuff-style BFT consensus core: committees and quorum
//! thresholds, quorum certificates, cross-shard vote merging, the four-phase
//! message protocol, and the worker state machine that drives them.

pub mod asset_processor;
pub mod bytes_util;
pub mod chain_strength_comparer;
pub mod config;
pub mod comms;
pub mod engine;
pub mod errors;
pub mod hashing;
pub mod instructions;
pub mod models;
pub mod services;
pub mod storage;
pub mod validation;
pub mod workers;

use vstd::prelude::*;

verus! {

} // verus!
