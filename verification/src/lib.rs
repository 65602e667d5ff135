//! A small verified model of clock arithmetic for two console reporters.
//!
//! The library holds the decision logic of two stateless operations: an
//! elapsed-time reporter, which compares two clock readings and either
//! yields the elapsed span or a clock-regression error, and an epoch-offset
//! reporter, which subtracts a caller-supplied span from the Unix epoch and
//! yields either the resulting instant or an underflow error. Reading the
//! clock, sleeping and printing are left to the surrounding program; the
//! functions here work on plain second/nanosecond values and carry proofs.

pub mod report;
pub mod time;
