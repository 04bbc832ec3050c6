//! The instruction-engine front: processors and builders for engine
//! instructions.

use vstd::prelude::*;

verus! {

/// Executes engine instructions; construction only, execution is wired in
/// by its callers.
#[derive(Debug)]
pub struct InstructionProcessor {}

impl InstructionProcessor {
    pub fn new() -> (r: InstructionProcessor) {
        InstructionProcessor {  }
    }
}

/// A single engine instruction: a named method call.
#[derive(Debug)]
pub struct Instruction {
    pub method: String,
}

impl Instruction {
    pub fn method(&self) -> (r: &String)
        ensures
            r@ == self.method@,
    {
        &self.method
    }
}

/// Step-by-step construction of an engine instruction.
#[derive(Debug)]
pub struct InstructionBuilder {
    pub method: Option<String>,
}

impl InstructionBuilder {
    pub fn new() -> (r: InstructionBuilder)
        ensures
            r.method is None,
    {
        InstructionBuilder { method: None }
    }

    pub fn method(self, method: String) -> (r: InstructionBuilder)
        ensures
            (r.method matches Some(m) && m@ == method@),
    {
        InstructionBuilder { method: Some(method) }
    }

    /// The finished instruction; building without a method is a caller
    /// error.
    pub fn build(self) -> (r: Instruction)
        requires
            self.method is Some,
        ensures
            r.method@ == self.method->0@,
    {
        match self.method {
            Some(method) => Instruction { method },
            None => {
                proof {
                    assert(false);
                }
                Instruction { method: String::new() }
            },
        }
    }
}

/// Implemented by values that register themselves as contract state.
pub trait IntoContractState {
    fn register_state();
}

} // verus!
