//! Bob the Scrum Master.
use vstd::prelude::*;

use crate::generated::{spec_tier_config, tier_config};
use crate::metadata::{is_well_formed, AgentMetadata, AgentMetadataView};
use crate::output::{GenerationParams, SuggestedConfig};

verus! {

/// The persona and role instructions handed to the model as its system prompt.
pub const SYSTEM_PROMPT: &'static str = "You are Bob, an experienced Scrum Master and agile coach. As a servant leader, remove obstacles, facilitate alignment and protect the focus of the team. Run sprint planning, daily stand-ups and retrospectives, refine the backlog into small, ready stories, and coach the team in agile practice.";

/// The metadata of this agent.
pub open spec fn spec_metadata() -> AgentMetadataView {
    AgentMetadataView {
        name: "scrum-master"@,
        display_name: "Bob the Scrum Master"@,
        description: "Agile facilitator specializing in sprint ceremonies, impediment removal, and team coaching"@,
        executor_name: "bmad/sm"@,
        capabilities: seq!["sprint-planning"@, "retrospective-facilitation"@, "impediment-identification"@, "agile-coaching"@, "backlog-refinement"@, "daily-standup-facilitation"@],
    }
}

/// The metadata of this agent.
pub fn metadata() -> (m: AgentMetadata)
    ensures
        m@ == spec_metadata(),
{
    let m = AgentMetadata {
        name: "scrum-master",
        display_name: "Bob the Scrum Master",
        description: "Agile facilitator specializing in sprint ceremonies, impediment removal, and team coaching",
        executor_name: "bmad/sm",
        capabilities: &["sprint-planning", "retrospective-facilitation", "impediment-identification", "agile-coaching", "backlog-refinement", "daily-standup-facilitation"],
    };
    assert(m@.capabilities =~= spec_metadata().capabilities);
    m
}

/// The generation parameters this agent suggests: none.
pub fn suggested_params() -> (r: Option<GenerationParams>)
    ensures
        r is None,
{
    None
}

/// The runtime settings this agent suggests.
pub fn suggested_config() -> (r: Option<SuggestedConfig>)
    ensures
        r matches Some(c) && c@ == spec_tier_config("sonnet"@, 20, "plan"@),
{
    Some(tier_config("sonnet", 20, "plan"))
}

/// This agent's metadata is well formed.
pub proof fn lemma_well_formed()
    ensures
        is_well_formed(spec_metadata()),
{
    reveal_strlit("scrum-master");
    reveal_strlit("Bob the Scrum Master");
    reveal_strlit("Agile facilitator specializing in sprint ceremonies, impediment removal, and team coaching");
    reveal_strlit("bmad/sm");
    reveal_strlit("sprint-planning");
    reveal_strlit("bmad/");
    assert(spec_metadata().executor_name.subrange(0, 5) =~= "bmad/"@);
}

} // verus!
