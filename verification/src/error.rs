//! Typed errors of the plugin.
use vstd::prelude::*;

use crate::text::{concat, concat3};

verus! {

/// Typed errors for the bmad-method plugin.
/// Message format: lowercase, no trailing punctuation.
#[derive(Debug)]
pub enum BmadError {
    /// Returned when an executor name is not found in the registry
    AgentNotFound(String),
    /// Returned when task input fails validation (e.g., empty input)
    InvalidInput(String),
    /// Returned when agent execution encounters an internal failure
    ExecutionFailed(String),
}

impl BmadError {
    /// The message that `to_string` renders.
    pub open spec fn message(&self) -> Seq<char> {
        match self {
            BmadError::AgentNotFound(name) => "agent '"@ + name@ + "' not found"@,
            BmadError::InvalidInput(reason) => "invalid input: "@ + reason@,
            BmadError::ExecutionFailed(cause) => "execution failed: "@ + cause@,
        }
    }

    /// The human-readable message of the error.
    pub fn to_string(&self) -> (r: String)
        ensures
            r@ == self.message(),
    {
        match self {
            BmadError::AgentNotFound(name) => concat3("agent '", name.as_str(), "' not found"),
            BmadError::InvalidInput(reason) => concat("invalid input: ", reason.as_str()),
            BmadError::ExecutionFailed(cause) => concat("execution failed: ", cause.as_str()),
        }
    }
}

} // verus!
