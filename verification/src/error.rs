//! The error taxonomy of a pipeline run.  Every fatal condition is an
//! explicit value propagated up through the orchestrator, so callers can
//! observe an abort instead of the process dying.

use vstd::prelude::*;

verus! {

/// A fatal condition that aborts the entire pipeline run.
#[derive(Clone, Copy, Debug, PartialEq, Eq, Structural)]
pub enum PipelineError {
    /// An API credential was missing from the configuration; raised before
    /// any network activity.
    MissingCredentials,
    /// The LLM call failed on both the initial attempt and the single retry.
    TransportFailed,
    /// The model's answer did not match the expected structured shape; not
    /// retried, since it is a contract violation rather than a transient
    /// fault.
    DecodeFailed,
    /// The human declined to approve running the generated code.
    SafetyRejected,
    /// A third consecutive build failure exhausted the repair budget.
    TooManyBugs,
}

impl PipelineError {
    /// A short description of the error, for the shell to display.
    pub fn describe(&self) -> (r: &'static str)
        ensures
            r@ == self.spec_describe(),
    {
        match self {
            PipelineError::MissingCredentials => "API credentials not found in configuration",
            PipelineError::TransportFailed => "Failed twice to call the LLM endpoint",
            PipelineError::DecodeFailed => "Failed to decode the LLM response",
            PipelineError::SafetyRejected => "User declined to run the generated code",
            PipelineError::TooManyBugs => "Error: Too many bugs",
        }
    }

    /// The description returned by [`Self::describe`].
    pub open spec fn spec_describe(&self) -> Seq<char> {
        match self {
            PipelineError::MissingCredentials => "API credentials not found in configuration"@,
            PipelineError::TransportFailed => "Failed twice to call the LLM endpoint"@,
            PipelineError::DecodeFailed => "Failed to decode the LLM response"@,
            PipelineError::SafetyRejected => "User declined to run the generated code"@,
            PipelineError::TooManyBugs => "Error: Too many bugs"@,
        }
    }
}

} // verus!
