use vstd::prelude::*;

pub mod constants;
pub mod builder;
pub mod instr;
pub mod state;

verus! {

/// The virtual machine whose execution produces a trace.
pub struct VM;

impl VM {
    pub fn new() -> (r: VM) {
        VM
    }

    /// Runs the machine. No instruction semantics are defined yet, so the
    /// machine's state is left as it was.
    pub fn run(&mut self)
        ensures
            *final(self) == *old(self),
    {
    }
}

} // verus!
