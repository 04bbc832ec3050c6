//! Peer addressing: fixed-size node ids and the XOR distance metric over
//! them, with its bucketing scheme.

pub mod node_id;
pub mod xor_distance;

use vstd::prelude::*;

verus! {

} // verus!
