//! Alex the Business Analyst.
use vstd::prelude::*;

use crate::generated::{spec_tier_config, tier_config};
use crate::metadata::{is_well_formed, AgentMetadata, AgentMetadataView};
use crate::output::{GenerationParams, SuggestedConfig};

verus! {

/// The persona and role instructions handed to the model as its system prompt.
pub const SYSTEM_PROMPT: &'static str = "You are Alex, a senior business analyst. You excel at translating complex business problems into clear, implementable requirements. Ask the right questions before proposing solutions: research the domain, map the stakeholders, and model the processes involved. Document requirements, use cases and gaps with enough precision that developers can implement them without ambiguity, and flag every assumption you make.";

/// The metadata of this agent.
pub open spec fn spec_metadata() -> AgentMetadataView {
    AgentMetadataView {
        name: "analyst"@,
        display_name: "Alex the Business Analyst"@,
        description: "Business analyst specializing in requirements elicitation, domain modeling, and process analysis"@,
        executor_name: "bmad/analyst"@,
        capabilities: seq!["requirements-elicitation"@, "domain-modeling"@, "process-analysis"@, "stakeholder-mapping"@, "gap-analysis"@, "use-case-documentation"@],
    }
}

/// The metadata of this agent.
pub fn metadata() -> (m: AgentMetadata)
    ensures
        m@ == spec_metadata(),
{
    let m = AgentMetadata {
        name: "analyst",
        display_name: "Alex the Business Analyst",
        description: "Business analyst specializing in requirements elicitation, domain modeling, and process analysis",
        executor_name: "bmad/analyst",
        capabilities: &["requirements-elicitation", "domain-modeling", "process-analysis", "stakeholder-mapping", "gap-analysis", "use-case-documentation"],
    };
    assert(m@.capabilities =~= spec_metadata().capabilities);
    m
}

/// The generation parameters this agent suggests: none.
pub fn suggested_params() -> (r: Option<GenerationParams>)
    ensures
        r is None,
{
    None
}

/// The runtime settings this agent suggests.
pub fn suggested_config() -> (r: Option<SuggestedConfig>)
    ensures
        r matches Some(c) && c@ == spec_tier_config("sonnet"@, 20, "plan"@),
{
    Some(tier_config("sonnet", 20, "plan"))
}

/// This agent's metadata is well formed.
pub proof fn lemma_well_formed()
    ensures
        is_well_formed(spec_metadata()),
{
    reveal_strlit("analyst");
    reveal_strlit("Alex the Business Analyst");
    reveal_strlit("Business analyst specializing in requirements elicitation, domain modeling, and process analysis");
    reveal_strlit("bmad/analyst");
    reveal_strlit("requirements-elicitation");
    reveal_strlit("bmad/");
    assert(spec_metadata().executor_name.subrange(0, 5) =~= "bmad/"@);
}

} // verus!
