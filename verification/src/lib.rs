//! A transaction-execution adapter that drives a stack-based EVM engine over an
//! in-memory account state.
//!
//! The adapter owns an engine instance plus a configured gas limit and exposes
//! deploy / call / fund / seed / reset operations. It computes the net gas each
//! transaction consumed (saturating at zero), drains and clears the engine's log
//! buffer so that no record leaks from one call into the next, precomputes the
//! address of a created contract from the sender's pre-transaction nonce, and
//! classifies every outcome as success or failure.

pub mod types;

pub mod vm;

pub mod executor;

