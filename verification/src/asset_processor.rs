//! Instruction execution logging. The template runtimes that execute
//! instructions live outside the consensus core; what the core keeps is the
//! ordered log of executions.

use vstd::prelude::*;
use crate::models::asset_meta::InstructionId;

verus! {

/// What executing one instruction produced.
#[derive(Debug)]
pub struct ExecutionResult {
    pub output: Vec<u8>,
}

/// A sink for per-instruction execution results.
pub trait InstructionLog {
    fn store(&mut self, id: InstructionId, result: ExecutionResult);
}

/// Keeps every stored result in memory, in execution order.
#[derive(Debug)]
pub struct MemoryInstructionLog {
    pub log: Vec<(InstructionId, ExecutionResult)>,
}

impl MemoryInstructionLog {
    pub fn new() -> (r: MemoryInstructionLog)
        ensures
            r.log@.len() == 0,
    {
        MemoryInstructionLog { log: Vec::new() }
    }

    pub fn entries(&self) -> (r: &Vec<(InstructionId, ExecutionResult)>)
        ensures
            r@ == self.log@,
    {
        &self.log
    }
}

impl InstructionLog for MemoryInstructionLog {
    fn store(&mut self, id: InstructionId, result: ExecutionResult) {
        self.log.push((id, result))
    }
}

} // verus!
