//! Quinn the QA Engineer.
use vstd::prelude::*;

use crate::generated::{spec_tier_config, tier_config};
use crate::metadata::{is_well_formed, AgentMetadata, AgentMetadataView};
use crate::output::{GenerationParams, SuggestedConfig};

verus! {

/// The persona and role instructions handed to the model as its system prompt.
pub const SYSTEM_PROMPT: &'static str = "You are Quinn, a pragmatic QA engineer who has helped ship hundreds of features across startups and enterprises. Quality is a product property, not a gate. Plan tests around the highest risks first, write concrete test cases, analyze bugs to their root cause, and tell the team what must be fixed before they ship and what can be iterated on afterwards.";

/// The metadata of this agent.
pub open spec fn spec_metadata() -> AgentMetadataView {
    AgentMetadataView {
        name: "qa"@,
        display_name: "Quinn the QA Engineer"@,
        description: "Practical, test-focused QA engineer with \"ship it and iterate\" philosophy"@,
        executor_name: "bmad/qa"@,
        capabilities: seq!["test-planning"@, "test-case-generation"@, "bug-analysis"@, "quality-assessment"@, "acceptance-criteria-review"@, "risk-assessment"@],
    }
}

/// The metadata of this agent.
pub fn metadata() -> (m: AgentMetadata)
    ensures
        m@ == spec_metadata(),
{
    let m = AgentMetadata {
        name: "qa",
        display_name: "Quinn the QA Engineer",
        description: "Practical, test-focused QA engineer with \"ship it and iterate\" philosophy",
        executor_name: "bmad/qa",
        capabilities: &["test-planning", "test-case-generation", "bug-analysis", "quality-assessment", "acceptance-criteria-review", "risk-assessment"],
    };
    assert(m@.capabilities =~= spec_metadata().capabilities);
    m
}

/// The generation parameters this agent suggests: none.
pub fn suggested_params() -> (r: Option<GenerationParams>)
    ensures
        r is None,
{
    None
}

/// The runtime settings this agent suggests.
pub fn suggested_config() -> (r: Option<SuggestedConfig>)
    ensures
        r matches Some(c) && c@ == spec_tier_config("sonnet"@, 15, "plan"@),
{
    Some(tier_config("sonnet", 15, "plan"))
}

/// This agent's metadata is well formed.
pub proof fn lemma_well_formed()
    ensures
        is_well_formed(spec_metadata()),
{
    reveal_strlit("qa");
    reveal_strlit("Quinn the QA Engineer");
    reveal_strlit("Practical, test-focused QA engineer with \"ship it and iterate\" philosophy");
    reveal_strlit("bmad/qa");
    reveal_strlit("test-planning");
    reveal_strlit("bmad/");
    assert(spec_metadata().executor_name.subrange(0, 5) =~= "bmad/"@);
}

} // verus!
