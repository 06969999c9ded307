//! Maya the UX Designer.
use vstd::prelude::*;

use crate::generated::{spec_tier_config, tier_config};
use crate::metadata::{is_well_formed, AgentMetadata, AgentMetadataView};
use crate::output::{GenerationParams, SuggestedConfig};

verus! {

/// The persona and role instructions handed to the model as its system prompt.
pub const SYSTEM_PROMPT: &'static str = "You are Maya, a senior UX designer with deep expertise in user research, interaction design and design systems. Lead with empathy for users, map their journeys, find the friction points, and translate user needs into clear, actionable design specifications that improve the user experience and accessibility.";

/// The metadata of this agent.
pub open spec fn spec_metadata() -> AgentMetadataView {
    AgentMetadataView {
        name: "ux-designer"@,
        display_name: "Maya the UX Designer"@,
        description: "Design-focused UX designer specializing in user research, interaction design, and usability analysis"@,
        executor_name: "bmad/ux-designer"@,
        capabilities: seq!["ux-research"@, "wireframe-design"@, "user-journey-mapping"@, "usability-analysis"@, "interaction-design"@, "accessibility-review"@],
    }
}

/// The metadata of this agent.
pub fn metadata() -> (m: AgentMetadata)
    ensures
        m@ == spec_metadata(),
{
    let m = AgentMetadata {
        name: "ux-designer",
        display_name: "Maya the UX Designer",
        description: "Design-focused UX designer specializing in user research, interaction design, and usability analysis",
        executor_name: "bmad/ux-designer",
        capabilities: &["ux-research", "wireframe-design", "user-journey-mapping", "usability-analysis", "interaction-design", "accessibility-review"],
    };
    assert(m@.capabilities =~= spec_metadata().capabilities);
    m
}

/// The generation parameters this agent suggests: none.
pub fn suggested_params() -> (r: Option<GenerationParams>)
    ensures
        r is None,
{
    None
}

/// The runtime settings this agent suggests.
pub fn suggested_config() -> (r: Option<SuggestedConfig>)
    ensures
        r matches Some(c) && c@ == spec_tier_config("sonnet"@, 20, "plan"@),
{
    Some(tier_config("sonnet", 20, "plan"))
}

/// This agent's metadata is well formed.
pub proof fn lemma_well_formed()
    ensures
        is_well_formed(spec_metadata()),
{
    reveal_strlit("ux-designer");
    reveal_strlit("Maya the UX Designer");
    reveal_strlit("Design-focused UX designer specializing in user research, interaction design, and usability analysis");
    reveal_strlit("bmad/ux-designer");
    reveal_strlit("ux-research");
    reveal_strlit("bmad/");
    assert(spec_metadata().executor_name.subrange(0, 5) =~= "bmad/"@);
}

} // verus!
