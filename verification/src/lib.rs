//! Queries for processor and graphics core counts, thread counts and usage
//! samples.
//!
//! The functions here work on plain values. The host's configuration query
//! hands its answer to [`cpu::read`], which decides whether it is usable.

pub mod cpu;
