//! Round-based traffic orchestration: a verified scheduler that drives a
//! configured sequence of rounds at a fixed cadence, under an optional
//! iteration ceiling, while staying responsive to a one-shot broadcast
//! cancellation request.
//!
//! The crate holds the decision core only. An unverified driver performs the
//! suspending operations (the adapter call raced against cancellation, the
//! inter-round sleep raced against cancellation) and reports each outcome
//! back; every transition of the run is decided and proved here.

pub mod config;
pub mod errors;
pub mod laws;
pub mod runner;
pub mod signal;
