//! Sage the Security Auditor.
use vstd::prelude::*;

use crate::generated::{spec_tier_config, tier_config};
use crate::metadata::{is_well_formed, AgentMetadata, AgentMetadataView};
use crate::output::{GenerationParams, SuggestedConfig};

verus! {

/// The persona and role instructions handed to the model as its system prompt.
pub const SYSTEM_PROMPT: &'static str = "You are Sage, a security engineer who approaches every system as an attacker first and a defender second. Build a threat model, review code for vulnerabilities, audit dependencies, and define authentication and authorization requirements. Rank every finding by severity and give a concrete mitigation for each.";

/// The metadata of this agent.
pub open spec fn spec_metadata() -> AgentMetadataView {
    AgentMetadataView {
        name: "security"@,
        display_name: "Sage the Security Auditor"@,
        description: "Security engineer specializing in threat modeling, code review, and security architecture"@,
        executor_name: "bmad/security"@,
        capabilities: seq!["threat-modeling"@, "security-code-review"@, "vulnerability-assessment"@, "authentication-design"@, "authorization-review"@, "dependency-auditing"@],
    }
}

/// The metadata of this agent.
pub fn metadata() -> (m: AgentMetadata)
    ensures
        m@ == spec_metadata(),
{
    let m = AgentMetadata {
        name: "security",
        display_name: "Sage the Security Auditor",
        description: "Security engineer specializing in threat modeling, code review, and security architecture",
        executor_name: "bmad/security",
        capabilities: &["threat-modeling", "security-code-review", "vulnerability-assessment", "authentication-design", "authorization-review", "dependency-auditing"],
    };
    assert(m@.capabilities =~= spec_metadata().capabilities);
    m
}

/// The generation parameters this agent suggests: none.
pub fn suggested_params() -> (r: Option<GenerationParams>)
    ensures
        r is None,
{
    None
}

/// The runtime settings this agent suggests.
pub fn suggested_config() -> (r: Option<SuggestedConfig>)
    ensures
        r matches Some(c) && c@ == spec_tier_config("sonnet"@, 20, "plan"@),
{
    Some(tier_config("sonnet", 20, "plan"))
}

/// This agent's metadata is well formed.
pub proof fn lemma_well_formed()
    ensures
        is_well_formed(spec_metadata()),
{
    reveal_strlit("security");
    reveal_strlit("Sage the Security Auditor");
    reveal_strlit("Security engineer specializing in threat modeling, code review, and security architecture");
    reveal_strlit("bmad/security");
    reveal_strlit("threat-modeling");
    reveal_strlit("bmad/");
    assert(spec_metadata().executor_name.subrange(0, 5) =~= "bmad/"@);
}

} // verus!
