pub mod trace;
