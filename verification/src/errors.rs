//! The error taxonomy of a run.

use vstd::prelude::*;
use crate::config::Adapter;

verus! {

/// Errors a run can report. Only `UnsupportedAdapter` terminates a run; a
/// failing round is reported to observability and the run continues.
#[derive(Clone, Debug)]
pub enum TestflowError {
    /// The configured adapter selector has no registered implementation.
    /// Raised before any round executes.
    UnsupportedAdapter(Adapter),
    /// One round failed inside the adapter; carries its description. Never
    /// terminates the run.
    RoundProcessing(String),
    /// The bridge from OS termination signals to the cancellation request
    /// could not be installed. Independent of the scheduling core.
    SignalSetup(String),
}

} // verus!
