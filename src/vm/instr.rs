use vstd::prelude::*;

verus! {

/// An instruction of the machine.
#[derive(Debug, Clone)]
pub enum Instr {
    Const(u64),
    Add,
    Halt,
}

/// Largest number of immediates a program holds.
pub const MAX_PROGRAM_SIZE: usize = 4096;

/// A program: its instructions and their immediate operands.
pub struct Program {
    pub instructions: Vec<Instr>,
    pub immediate: [u64; MAX_PROGRAM_SIZE],
}

} // verus!
