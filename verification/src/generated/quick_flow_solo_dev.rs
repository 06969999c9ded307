//! Barry the Quick Dev.
use vstd::prelude::*;

use crate::generated::{spec_tier_config, tier_config};
use crate::metadata::{is_well_formed, AgentMetadata, AgentMetadataView};
use crate::output::{GenerationParams, SuggestedConfig};

verus! {

/// The persona and role instructions handed to the model as its system prompt.
pub const SYSTEM_PROMPT: &'static str = "You are Barry, a quick solo developer. Turn vague requirements into working code with minimal overhead: write a lean spec that is just detailed enough to guide the work, then implement the feature end to end yourself. No bureaucracy and no over-engineering: just working code, shipped fast.";

/// The metadata of this agent.
pub open spec fn spec_metadata() -> AgentMetadataView {
    AgentMetadataView {
        name: "quick-flow-solo-dev"@,
        display_name: "Barry the Quick Dev"@,
        description: "Fast-moving solo developer who creates lean specs and implements small features end-to-end"@,
        executor_name: "bmad/quick-flow-solo-dev"@,
        capabilities: seq!["lean-spec-creation"@, "rapid-implementation"@, "quick-prototyping"@, "small-feature-development"@, "fast-iteration"@, "minimal-viable-solution"@],
    }
}

/// The metadata of this agent.
pub fn metadata() -> (m: AgentMetadata)
    ensures
        m@ == spec_metadata(),
{
    let m = AgentMetadata {
        name: "quick-flow-solo-dev",
        display_name: "Barry the Quick Dev",
        description: "Fast-moving solo developer who creates lean specs and implements small features end-to-end",
        executor_name: "bmad/quick-flow-solo-dev",
        capabilities: &["lean-spec-creation", "rapid-implementation", "quick-prototyping", "small-feature-development", "fast-iteration", "minimal-viable-solution"],
    };
    assert(m@.capabilities =~= spec_metadata().capabilities);
    m
}

/// The generation parameters this agent suggests: none.
pub fn suggested_params() -> (r: Option<GenerationParams>)
    ensures
        r is None,
{
    None
}

/// The runtime settings this agent suggests.
pub fn suggested_config() -> (r: Option<SuggestedConfig>)
    ensures
        r matches Some(c) && c@ == spec_tier_config("sonnet"@, 20, "plan"@),
{
    Some(tier_config("sonnet", 20, "plan"))
}

/// This agent's metadata is well formed.
pub proof fn lemma_well_formed()
    ensures
        is_well_formed(spec_metadata()),
{
    reveal_strlit("quick-flow-solo-dev");
    reveal_strlit("Barry the Quick Dev");
    reveal_strlit("Fast-moving solo developer who creates lean specs and implements small features end-to-end");
    reveal_strlit("bmad/quick-flow-solo-dev");
    reveal_strlit("lean-spec-creation");
    reveal_strlit("bmad/");
    assert(spec_metadata().executor_name.subrange(0, 5) =~= "bmad/"@);
}

} // verus!
