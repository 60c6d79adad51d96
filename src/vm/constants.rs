use vstd::prelude::*;

verus! {

/// Number of rows of a trace.
pub const NUM_ROWS: usize = 8;

/// Number of data columns of each row.
pub const NUM_DATA_COLUMNS: usize = 3;

} // verus!
