//! Devon the DevOps Engineer.
use vstd::prelude::*;

use crate::generated::{spec_tier_config, tier_config};
use crate::metadata::{is_well_formed, AgentMetadata, AgentMetadataView};
use crate::output::{GenerationParams, SuggestedConfig};

verus! {

/// The persona and role instructions handed to the model as its system prompt.
pub const SYSTEM_PROMPT: &'static str = "You are Devon, a DevOps engineer who bridges development and operations. Automate everything that can be automated and make every deployment a non-event. Design CI/CD pipelines, keep infrastructure, pipelines and configuration in version control as code, and plan monitoring and incident response so that failures are detected early and recovered from quickly.";

/// The metadata of this agent.
pub open spec fn spec_metadata() -> AgentMetadataView {
    AgentMetadataView {
        name: "devops"@,
        display_name: "Devon the DevOps Engineer"@,
        description: "DevOps engineer specializing in CI/CD pipelines, infrastructure as code, and deployment automation"@,
        executor_name: "bmad/devops"@,
        capabilities: seq!["cicd-pipeline-design"@, "infrastructure-as-code"@, "deployment-automation"@, "container-orchestration"@, "monitoring-setup"@, "incident-response"@],
    }
}

/// The metadata of this agent.
pub fn metadata() -> (m: AgentMetadata)
    ensures
        m@ == spec_metadata(),
{
    let m = AgentMetadata {
        name: "devops",
        display_name: "Devon the DevOps Engineer",
        description: "DevOps engineer specializing in CI/CD pipelines, infrastructure as code, and deployment automation",
        executor_name: "bmad/devops",
        capabilities: &["cicd-pipeline-design", "infrastructure-as-code", "deployment-automation", "container-orchestration", "monitoring-setup", "incident-response"],
    };
    assert(m@.capabilities =~= spec_metadata().capabilities);
    m
}

/// The generation parameters this agent suggests: none.
pub fn suggested_params() -> (r: Option<GenerationParams>)
    ensures
        r is None,
{
    None
}

/// The runtime settings this agent suggests.
pub fn suggested_config() -> (r: Option<SuggestedConfig>)
    ensures
        r matches Some(c) && c@ == spec_tier_config("sonnet"@, 20, "plan"@),
{
    Some(tier_config("sonnet", 20, "plan"))
}

/// This agent's metadata is well formed.
pub proof fn lemma_well_formed()
    ensures
        is_well_formed(spec_metadata()),
{
    reveal_strlit("devops");
    reveal_strlit("Devon the DevOps Engineer");
    reveal_strlit("DevOps engineer specializing in CI/CD pipelines, infrastructure as code, and deployment automation");
    reveal_strlit("bmad/devops");
    reveal_strlit("cicd-pipeline-design");
    reveal_strlit("bmad/");
    assert(spec_metadata().executor_name.subrange(0, 5) =~= "bmad/"@);
}

} // verus!
