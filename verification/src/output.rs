//! What an agent hands back: prompt data and suggestions for the host.
use vstd::prelude::*;

use crate::text::clone_opt_string;

verus! {

/// The text of an optional string.
pub open spec fn opt_view(o: Option<String>) -> Option<Seq<char>> {
    match o {
        Some(s) => Some(s@),
        None => None,
    }
}

/// Optional generation parameters an agent can suggest to Pulse.
/// Pulse is free to ignore these: the plugin does not own LLM execution.
#[derive(Debug)]
pub struct GenerationParams {
    /// Preferred model identifier (e.g., "gpt-4")
    pub model: Option<String>,
    /// Sampling temperature (an `f32`, typically 0.0–2.0), held as its IEEE-754 bit pattern
    pub temperature_bits: Option<u32>,
    /// Maximum tokens for the response
    pub max_tokens: Option<u32>,
}

impl Clone for GenerationParams {
    fn clone(&self) -> (r: Self)
        ensures
            r == *self,
    {
        GenerationParams {
            model: clone_opt_string(&self.model),
            temperature_bits: self.temperature_bits,
            max_tokens: self.max_tokens,
        }
    }
}

/// Runtime settings an agent suggests for its step.
#[derive(Debug)]
pub struct SuggestedConfig {
    /// Model tier, e.g. "opus" or "sonnet"
    pub model_tier: Option<String>,
    /// Upper bound on agent turns
    pub max_turns: Option<u32>,
    /// Permission mode, e.g. "plan" or "bypassPermissions"
    pub permission_mode: Option<String>,
}

/// The content of a `SuggestedConfig`.
pub struct SuggestedConfigView {
    pub model_tier: Option<Seq<char>>,
    pub max_turns: Option<u32>,
    pub permission_mode: Option<Seq<char>>,
}

impl View for SuggestedConfig {
    type V = SuggestedConfigView;

    open spec fn view(&self) -> SuggestedConfigView {
        SuggestedConfigView {
            model_tier: opt_view(self.model_tier),
            max_turns: self.max_turns,
            permission_mode: opt_view(self.permission_mode),
        }
    }
}

impl Clone for SuggestedConfig {
    fn clone(&self) -> (r: Self)
        ensures
            r == *self,
    {
        SuggestedConfig {
            model_tier: clone_opt_string(&self.model_tier),
            max_turns: self.max_turns,
            permission_mode: clone_opt_string(&self.permission_mode),
        }
    }
}

/// Structured output returned by a BMAD agent executor.
/// Pulse owns LLM execution: this struct carries prompt data only.
#[derive(Debug)]
pub struct AgentOutput {
    /// The agent's persona/role instructions for the LLM system prompt
    pub system_prompt: String,
    /// Task input as passed by the Pulse workflow, forwarded to user turn
    pub user_context: String,
    /// Optional generation parameters the agent suggests to Pulse
    pub suggested_params: Option<GenerationParams>,
}

impl Clone for AgentOutput {
    fn clone(&self) -> (r: Self)
        ensures
            r == *self,
    {
        AgentOutput {
            system_prompt: self.system_prompt.clone(),
            user_context: self.user_context.clone(),
            suggested_params: match &self.suggested_params {
                Some(p) => Some(p.clone()),
                None => None,
            },
        }
    }
}

} // verus!
