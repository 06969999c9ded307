//! Step-level configuration.
use vstd::prelude::*;

use crate::error::BmadError;
use crate::text::{concat3, prefix_executor_name, with_bmad_prefix};

verus! {

/// Step-level configuration for the bmad-method plugin: the agent to run and an
/// optional context. Unknown keys in the configuration are an error.
#[derive(Debug)]
pub struct BmadConfig {
    pub agent_name: String,
    pub context: Option<String>,
}

/// The text that follows the parser's message in a refused step configuration.
pub open spec fn step_config_hint() -> Seq<char> {
    "; expected {\"agent_name\": \"<name>\"}"@
}

impl BmadConfig {
    /// Turns the outcome of reading a step configuration as JSON into the
    /// configuration, or into `InvalidInput` carrying the reader's message.
    pub fn from_step_config(parsed: Result<BmadConfig, String>) -> (r: Result<BmadConfig, BmadError>)
        ensures
            match parsed {
                Ok(cfg) => r == Ok::<BmadConfig, BmadError>(cfg),
                Err(msg) => r matches Err(BmadError::InvalidInput(m))
                    && m@ == "invalid step config: "@ + msg@ + step_config_hint(),
            },
    {
        match parsed {
            Ok(cfg) => Ok(cfg),
            Err(msg) => Err(
                BmadError::InvalidInput(
                    concat3(
                        "invalid step config: ",
                        msg.as_str(),
                        "; expected {\"agent_name\": \"<name>\"}",
                    ),
                ),
            ),
        }
    }

    /// Returns the executor name in `bmad/<name>` format.
    /// Accepts both `"architect"` and `"bmad/architect"` as input.
    pub fn executor_name(&self) -> (r: String)
        ensures
            r@ == with_bmad_prefix(self.agent_name@),
    {
        prefix_executor_name(self.agent_name.as_str())
    }
}

} // verus!
