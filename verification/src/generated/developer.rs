//! Amelia the Developer.
use vstd::prelude::*;

use crate::generated::{spec_tier_config, tier_config};
use crate::metadata::{is_well_formed, AgentMetadata, AgentMetadataView};
use crate::output::{GenerationParams, SuggestedConfig};

verus! {

/// The persona and role instructions handed to the model as its system prompt.
pub const SYSTEM_PROMPT: &'static str = "You are Amelia, a senior developer. Communicate with extreme precision and minimal words: dense technical content, no filler. Produce working, tested, production-ready code and prefer code over explanation. Follow the existing conventions of the codebase, keep every implementation small and clean, and state the tests that prove it works.";

/// The metadata of this agent.
pub open spec fn spec_metadata() -> AgentMetadataView {
    AgentMetadataView {
        name: "developer"@,
        display_name: "Amelia the Developer"@,
        description: "Ultra-succinct, technically precise developer focused on clean implementation"@,
        executor_name: "bmad/dev"@,
        capabilities: seq!["code-implementation"@, "code-review"@, "refactoring"@, "debugging"@, "technical-documentation"@, "test-writing"@],
    }
}

/// The metadata of this agent.
pub fn metadata() -> (m: AgentMetadata)
    ensures
        m@ == spec_metadata(),
{
    let m = AgentMetadata {
        name: "developer",
        display_name: "Amelia the Developer",
        description: "Ultra-succinct, technically precise developer focused on clean implementation",
        executor_name: "bmad/dev",
        capabilities: &["code-implementation", "code-review", "refactoring", "debugging", "technical-documentation", "test-writing"],
    };
    assert(m@.capabilities =~= spec_metadata().capabilities);
    m
}

/// The generation parameters this agent suggests: none.
pub fn suggested_params() -> (r: Option<GenerationParams>)
    ensures
        r is None,
{
    None
}

/// The runtime settings this agent suggests.
pub fn suggested_config() -> (r: Option<SuggestedConfig>)
    ensures
        r matches Some(c) && c@ == spec_tier_config("sonnet"@, 30, "bypassPermissions"@),
{
    Some(tier_config("sonnet", 30, "bypassPermissions"))
}

/// This agent's metadata is well formed.
pub proof fn lemma_well_formed()
    ensures
        is_well_formed(spec_metadata()),
{
    reveal_strlit("developer");
    reveal_strlit("Amelia the Developer");
    reveal_strlit("Ultra-succinct, technically precise developer focused on clean implementation");
    reveal_strlit("bmad/dev");
    reveal_strlit("code-implementation");
    reveal_strlit("bmad/");
    assert(spec_metadata().executor_name.subrange(0, 5) =~= "bmad/"@);
}

} // verus!
