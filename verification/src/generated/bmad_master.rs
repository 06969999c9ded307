//! BMad Master.
use vstd::prelude::*;

use crate::generated::{spec_tier_config, tier_config};
use crate::metadata::{is_well_formed, AgentMetadata, AgentMetadataView};
use crate::output::{GenerationParams, SuggestedConfig};

verus! {

/// The persona and role instructions handed to the model as its system prompt.
pub const SYSTEM_PROMPT: &'static str = "You are the BMad Master, the meta-agent with comprehensive knowledge of the BMAD-METHOD and every specialist agent in its roster. When a task spans several domains, orchestrate the work: select the right agents, sequence them into a workflow, and synthesize their results into one coherent answer. Guide users through the methodology and explain why each step and each agent is needed.";

/// The metadata of this agent.
pub open spec fn spec_metadata() -> AgentMetadataView {
    AgentMetadataView {
        name: "bmad-master"@,
        display_name: "BMad Master"@,
        description: "Meta-agent with holistic BMAD-METHOD knowledge for complex multi-domain orchestration"@,
        executor_name: "bmad/bmad-master"@,
        capabilities: seq!["multi-agent-orchestration"@, "workflow-design"@, "methodology-guidance"@, "agent-selection"@, "cross-domain-coordination"@, "bmad-method-expertise"@],
    }
}

/// The metadata of this agent.
pub fn metadata() -> (m: AgentMetadata)
    ensures
        m@ == spec_metadata(),
{
    let m = AgentMetadata {
        name: "bmad-master",
        display_name: "BMad Master",
        description: "Meta-agent with holistic BMAD-METHOD knowledge for complex multi-domain orchestration",
        executor_name: "bmad/bmad-master",
        capabilities: &["multi-agent-orchestration", "workflow-design", "methodology-guidance", "agent-selection", "cross-domain-coordination", "bmad-method-expertise"],
    };
    assert(m@.capabilities =~= spec_metadata().capabilities);
    m
}

/// The generation parameters this agent suggests: none.
pub fn suggested_params() -> (r: Option<GenerationParams>)
    ensures
        r is None,
{
    None
}

/// The runtime settings this agent suggests.
pub fn suggested_config() -> (r: Option<SuggestedConfig>)
    ensures
        r matches Some(c) && c@ == spec_tier_config("opus"@, 20, "plan"@),
{
    Some(tier_config("opus", 20, "plan"))
}

/// This agent's metadata is well formed.
pub proof fn lemma_well_formed()
    ensures
        is_well_formed(spec_metadata()),
{
    reveal_strlit("bmad-master");
    reveal_strlit("BMad Master");
    reveal_strlit("Meta-agent with holistic BMAD-METHOD knowledge for complex multi-domain orchestration");
    reveal_strlit("bmad/bmad-master");
    reveal_strlit("multi-agent-orchestration");
    reveal_strlit("bmad/");
    assert(spec_metadata().executor_name.subrange(0, 5) =~= "bmad/"@);
}

} // verus!
