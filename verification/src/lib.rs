//! Benchmarking harness for Blake2b-256: three interchangeable hashing
//! backends behind one incremental-update interface, a chunked reader,
//! a trial runner and a benchmark orchestrator with exact contracts.

pub mod bencher;
pub mod hasher;
