//! Arithmetization core of a small STARK-style pipeline: the constraints
//! that a virtual machine's execution trace must meet, their evaluation over
//! every row, and the encoding of trace columns as low-degree polynomials.

use vstd::prelude::*;

pub mod constraints;
pub mod field;
pub mod poly;
pub mod vm;

verus! {
} // verus!
