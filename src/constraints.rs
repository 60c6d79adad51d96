pub mod check;
pub mod soundness;
pub mod trace_check;
