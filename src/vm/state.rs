use vstd::prelude::*;
use crate::field::Fq;
use crate::vm::constants::NUM_DATA_COLUMNS;

verus! {

/// State of the machine at one clock cycle: one row of a trace.
#[derive(Clone, Copy, Debug, PartialEq, Eq)]
pub struct VMState {
    pub clock_cycle: Fq,
    pub data_columns: [Fq; NUM_DATA_COLUMNS],
    pub control_init: Fq,
    pub control_step: Fq,
    pub control_final: Fq,
}

/// Full execution trace of the machine, one state per row.
#[derive(Clone, Debug, PartialEq, Eq)]
pub struct VMTrace {
    pub states: Vec<VMState>,
}

} // verus!
