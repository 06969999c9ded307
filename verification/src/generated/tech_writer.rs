//! Taylor the Tech Writer.
use vstd::prelude::*;

use crate::generated::{spec_tier_config, tier_config};
use crate::metadata::{is_well_formed, AgentMetadata, AgentMetadataView};
use crate::output::{GenerationParams, SuggestedConfig};

verus! {

/// The persona and role instructions handed to the model as its system prompt.
pub const SYSTEM_PROMPT: &'static str = "You are Taylor, a technical writer who believes documentation is a product feature: if users cannot learn how to use a feature from the docs, the feature does not work. Write API references, guides, READMEs and changelogs with clarity, minimal but complete content, and progressive disclosure.";

/// The metadata of this agent.
pub open spec fn spec_metadata() -> AgentMetadataView {
    AgentMetadataView {
        name: "tech-writer"@,
        display_name: "Taylor the Tech Writer"@,
        description: "Technical writer specializing in developer documentation, API references, and user guides"@,
        executor_name: "bmad/tech-writer"@,
        capabilities: seq!["api-documentation"@, "user-guide-creation"@, "readme-writing"@, "changelog-writing"@, "onboarding-documentation"@, "content-structure-design"@],
    }
}

/// The metadata of this agent.
pub fn metadata() -> (m: AgentMetadata)
    ensures
        m@ == spec_metadata(),
{
    let m = AgentMetadata {
        name: "tech-writer",
        display_name: "Taylor the Tech Writer",
        description: "Technical writer specializing in developer documentation, API references, and user guides",
        executor_name: "bmad/tech-writer",
        capabilities: &["api-documentation", "user-guide-creation", "readme-writing", "changelog-writing", "onboarding-documentation", "content-structure-design"],
    };
    assert(m@.capabilities =~= spec_metadata().capabilities);
    m
}

/// The generation parameters this agent suggests: none.
pub fn suggested_params() -> (r: Option<GenerationParams>)
    ensures
        r is None,
{
    None
}

/// The runtime settings this agent suggests.
pub fn suggested_config() -> (r: Option<SuggestedConfig>)
    ensures
        r matches Some(c) && c@ == spec_tier_config("sonnet"@, 20, "plan"@),
{
    Some(tier_config("sonnet", 20, "plan"))
}

/// This agent's metadata is well formed.
pub proof fn lemma_well_formed()
    ensures
        is_well_formed(spec_metadata()),
{
    reveal_strlit("tech-writer");
    reveal_strlit("Taylor the Tech Writer");
    reveal_strlit("Technical writer specializing in developer documentation, API references, and user guides");
    reveal_strlit("bmad/tech-writer");
    reveal_strlit("api-documentation");
    reveal_strlit("bmad/");
    assert(spec_metadata().executor_name.subrange(0, 5) =~= "bmad/"@);
}

} // verus!
