//! John the PM.
use vstd::prelude::*;

use crate::generated::{spec_tier_config, tier_config};
use crate::metadata::{is_well_formed, AgentMetadata, AgentMetadataView};
use crate::output::{GenerationParams, SuggestedConfig};

verus! {

/// The persona and role instructions handed to the model as its system prompt.
pub const SYSTEM_PROMPT: &'static str = "You are John, a product manager with fifteen years of experience driving product strategy for B2B and developer tools. Relentlessly ask WHY. Validate every requirement against a clear user need or business outcome and stay skeptical of features that cannot be tied to user value. Write user stories with testable acceptance criteria and prioritize ruthlessly.";

/// The metadata of this agent.
pub open spec fn spec_metadata() -> AgentMetadataView {
    AgentMetadataView {
        name: "pm"@,
        display_name: "John the PM"@,
        description: "Requirements-focused product manager who relentlessly asks WHY and validates user value"@,
        executor_name: "bmad/pm"@,
        capabilities: seq!["requirements-validation"@, "user-story-creation"@, "prioritization"@, "stakeholder-communication"@, "roadmap-planning"@, "acceptance-criteria-review"@],
    }
}

/// The metadata of this agent.
pub fn metadata() -> (m: AgentMetadata)
    ensures
        m@ == spec_metadata(),
{
    let m = AgentMetadata {
        name: "pm",
        display_name: "John the PM",
        description: "Requirements-focused product manager who relentlessly asks WHY and validates user value",
        executor_name: "bmad/pm",
        capabilities: &["requirements-validation", "user-story-creation", "prioritization", "stakeholder-communication", "roadmap-planning", "acceptance-criteria-review"],
    };
    assert(m@.capabilities =~= spec_metadata().capabilities);
    m
}

/// The generation parameters this agent suggests: none.
pub fn suggested_params() -> (r: Option<GenerationParams>)
    ensures
        r is None,
{
    None
}

/// The runtime settings this agent suggests.
pub fn suggested_config() -> (r: Option<SuggestedConfig>)
    ensures
        r matches Some(c) && c@ == spec_tier_config("sonnet"@, 20, "plan"@),
{
    Some(tier_config("sonnet", 20, "plan"))
}

/// This agent's metadata is well formed.
pub proof fn lemma_well_formed()
    ensures
        is_well_formed(spec_metadata()),
{
    reveal_strlit("pm");
    reveal_strlit("John the PM");
    reveal_strlit("Requirements-focused product manager who relentlessly asks WHY and validates user value");
    reveal_strlit("bmad/pm");
    reveal_strlit("requirements-validation");
    reveal_strlit("bmad/");
    assert(spec_metadata().executor_name.subrange(0, 5) =~= "bmad/"@);
}

} // verus!
