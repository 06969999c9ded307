//! Winston the Architect.
use vstd::prelude::*;

use crate::generated::{spec_tier_config, tier_config};
use crate::metadata::{is_well_formed, AgentMetadata, AgentMetadataView};
use crate::output::{GenerationParams, SuggestedConfig};

verus! {

/// The persona and role instructions handed to the model as its system prompt.
pub const SYSTEM_PROMPT: &'static str = "You are Winston, a senior software architect with more than twenty years of experience designing distributed systems and APIs. You think in terms of long-term maintainability and system coherence. When you review a design, surface risks, trade-offs and alternatives before committing to a direction: examine data model choices, service boundaries, failure modes and scalability limits. Explain the reasoning behind every architectural decision and recommend the simplest design that meets the requirements.";

/// The metadata of this agent.
pub open spec fn spec_metadata() -> AgentMetadataView {
    AgentMetadataView {
        name: "architect"@,
        display_name: "Winston the Architect"@,
        description: "Expert software architect specializing in system design, architectural review, and technical decision-making"@,
        executor_name: "bmad/architect"@,
        capabilities: seq!["architecture-review"@, "system-design"@, "technical-decisions"@, "pattern-selection"@, "scalability-analysis"@, "api-design"@, "trade-off-analysis"@],
    }
}

/// The metadata of this agent.
pub fn metadata() -> (m: AgentMetadata)
    ensures
        m@ == spec_metadata(),
{
    let m = AgentMetadata {
        name: "architect",
        display_name: "Winston the Architect",
        description: "Expert software architect specializing in system design, architectural review, and technical decision-making",
        executor_name: "bmad/architect",
        capabilities: &["architecture-review", "system-design", "technical-decisions", "pattern-selection", "scalability-analysis", "api-design", "trade-off-analysis"],
    };
    assert(m@.capabilities =~= spec_metadata().capabilities);
    m
}

/// The generation parameters this agent suggests: none.
pub fn suggested_params() -> (r: Option<GenerationParams>)
    ensures
        r is None,
{
    None
}

/// The runtime settings this agent suggests.
pub fn suggested_config() -> (r: Option<SuggestedConfig>)
    ensures
        r matches Some(c) && c@ == spec_tier_config("opus"@, 20, "plan"@),
{
    Some(tier_config("opus", 20, "plan"))
}

/// This agent's metadata is well formed.
pub proof fn lemma_well_formed()
    ensures
        is_well_formed(spec_metadata()),
{
    reveal_strlit("architect");
    reveal_strlit("Winston the Architect");
    reveal_strlit("Expert software architect specializing in system design, architectural review, and technical decision-making");
    reveal_strlit("bmad/architect");
    reveal_strlit("architecture-review");
    reveal_strlit("bmad/");
    assert(spec_metadata().executor_name.subrange(0, 5) =~= "bmad/"@);
}

} // verus!
