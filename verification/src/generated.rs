//! The agent roster: every agent this plugin serves, in the order of their names.
use vstd::prelude::*;

pub mod analyst;
pub mod architect;
pub mod bmad_master;
pub mod developer;
pub mod devops;
pub mod pm;
pub mod qa;
pub mod quick_flow_solo_dev;
pub mod scrum_master;
pub mod security;
pub mod tech_writer;
pub mod ux_designer;

use crate::metadata::{is_well_formed, AgentMetadata, AgentMetadataView};
use crate::output::{GenerationParams, SuggestedConfig, SuggestedConfigView};

verus! {

/// The runtime settings of a model tier.
pub open spec fn spec_tier_config(tier: Seq<char>, max_turns: u32, mode: Seq<char>) -> SuggestedConfigView {
    SuggestedConfigView { model_tier: Some(tier), max_turns: Some(max_turns), permission_mode: Some(mode) }
}

/// The runtime settings of a model tier.
pub fn tier_config(tier: &str, max_turns: u32, mode: &str) -> (r: SuggestedConfig)
    ensures
        r@ == spec_tier_config(tier@, max_turns, mode@),
{
    SuggestedConfig {
        model_tier: Some(String::from_str(tier)),
        max_turns: Some(max_turns),
        permission_mode: Some(String::from_str(mode)),
    }
}

/// The metadata of every agent, in roster order.
pub open spec fn roster() -> Seq<AgentMetadataView> {
    seq![
        analyst::spec_metadata(),
        architect::spec_metadata(),
        bmad_master::spec_metadata(),
        developer::spec_metadata(),
        devops::spec_metadata(),
        pm::spec_metadata(),
        qa::spec_metadata(),
        quick_flow_solo_dev::spec_metadata(),
        scrum_master::spec_metadata(),
        security::spec_metadata(),
        tech_writer::spec_metadata(),
        ux_designer::spec_metadata(),
    ]
}

/// The system prompt of every agent, in roster order.
pub open spec fn roster_prompts() -> Seq<Seq<char>> {
    seq![
        analyst::SYSTEM_PROMPT@,
        architect::SYSTEM_PROMPT@,
        bmad_master::SYSTEM_PROMPT@,
        developer::SYSTEM_PROMPT@,
        devops::SYSTEM_PROMPT@,
        pm::SYSTEM_PROMPT@,
        qa::SYSTEM_PROMPT@,
        quick_flow_solo_dev::SYSTEM_PROMPT@,
        scrum_master::SYSTEM_PROMPT@,
        security::SYSTEM_PROMPT@,
        tech_writer::SYSTEM_PROMPT@,
        ux_designer::SYSTEM_PROMPT@,
    ]
}

/// The runtime settings every agent suggests, in roster order.
pub open spec fn roster_configs() -> Seq<SuggestedConfigView> {
    seq![
        spec_tier_config("sonnet"@, 20, "plan"@),
        spec_tier_config("opus"@, 20, "plan"@),
        spec_tier_config("opus"@, 20, "plan"@),
        spec_tier_config("sonnet"@, 30, "bypassPermissions"@),
        spec_tier_config("sonnet"@, 20, "plan"@),
        spec_tier_config("sonnet"@, 20, "plan"@),
        spec_tier_config("sonnet"@, 15, "plan"@),
        spec_tier_config("sonnet"@, 20, "plan"@),
        spec_tier_config("sonnet"@, 20, "plan"@),
        spec_tier_config("sonnet"@, 20, "plan"@),
        spec_tier_config("sonnet"@, 20, "plan"@),
        spec_tier_config("sonnet"@, 20, "plan"@),
    ]
}

/// The metadata of every agent, in roster order.
pub fn all_agents() -> (v: Vec<AgentMetadata>)
    ensures
        v@.len() == roster().len(),
        forall|i: int| 0 <= i < v@.len() ==> #[trigger] v@[i]@ == roster()[i],
{
    let mut v: Vec<AgentMetadata> = Vec::new();
    v.push(analyst::metadata());
    v.push(architect::metadata());
    v.push(bmad_master::metadata());
    v.push(developer::metadata());
    v.push(devops::metadata());
    v.push(pm::metadata());
    v.push(qa::metadata());
    v.push(quick_flow_solo_dev::metadata());
    v.push(scrum_master::metadata());
    v.push(security::metadata());
    v.push(tech_writer::metadata());
    v.push(ux_designer::metadata());
    v
}

/// One agent with everything an executor for it needs: metadata, system
/// prompt, suggested generation parameters and suggested runtime settings.
pub type AgentEntry = (AgentMetadata, &'static str, Option<GenerationParams>, Option<SuggestedConfig>);

/// Whether `e` is the `i`-th agent of the roster.
pub open spec fn is_roster_entry(e: AgentEntry, i: int) -> bool {
    &&& e.0@ == roster()[i]
    &&& e.1@ == roster_prompts()[i]
    &&& e.2 is None
    &&& e.3 matches Some(c) && c@ == roster_configs()[i]
}

/// Every agent of the roster with its prompt and suggestions, in roster order.
pub fn all_agent_entries() -> (v: Vec<AgentEntry>)
    ensures
        v@.len() == roster().len(),
        forall|i: int| 0 <= i < v@.len() ==> is_roster_entry(#[trigger] v@[i], i),
{
    let mut v: Vec<AgentEntry> = Vec::new();
    v.push((analyst::metadata(), analyst::SYSTEM_PROMPT, analyst::suggested_params(), analyst::suggested_config()));
    v.push((architect::metadata(), architect::SYSTEM_PROMPT, architect::suggested_params(), architect::suggested_config()));
    v.push((bmad_master::metadata(), bmad_master::SYSTEM_PROMPT, bmad_master::suggested_params(), bmad_master::suggested_config()));
    v.push((developer::metadata(), developer::SYSTEM_PROMPT, developer::suggested_params(), developer::suggested_config()));
    v.push((devops::metadata(), devops::SYSTEM_PROMPT, devops::suggested_params(), devops::suggested_config()));
    v.push((pm::metadata(), pm::SYSTEM_PROMPT, pm::suggested_params(), pm::suggested_config()));
    v.push((qa::metadata(), qa::SYSTEM_PROMPT, qa::suggested_params(), qa::suggested_config()));
    v.push((quick_flow_solo_dev::metadata(), quick_flow_solo_dev::SYSTEM_PROMPT, quick_flow_solo_dev::suggested_params(), quick_flow_solo_dev::suggested_config()));
    v.push((scrum_master::metadata(), scrum_master::SYSTEM_PROMPT, scrum_master::suggested_params(), scrum_master::suggested_config()));
    v.push((security::metadata(), security::SYSTEM_PROMPT, security::suggested_params(), security::suggested_config()));
    v.push((tech_writer::metadata(), tech_writer::SYSTEM_PROMPT, tech_writer::suggested_params(), tech_writer::suggested_config()));
    v.push((ux_designer::metadata(), ux_designer::SYSTEM_PROMPT, ux_designer::suggested_params(), ux_designer::suggested_config()));
    v
}

/// The roster is the agent table: for each agent, in the order of their names,
/// its name, display name, description (its specialization), executor name and
/// capabilities.
pub proof fn lemma_roster_is_the_agent_table()
    ensures
        roster() == seq![
            AgentMetadataView {
                name: "analyst"@,
                display_name: "Alex the Business Analyst"@,
                description: "Business analyst specializing in requirements elicitation, domain modeling, and process analysis"@,
                executor_name: "bmad/analyst"@,
                capabilities: seq!["requirements-elicitation"@, "domain-modeling"@, "process-analysis"@, "stakeholder-mapping"@, "gap-analysis"@, "use-case-documentation"@],
            },
            AgentMetadataView {
                name: "architect"@,
                display_name: "Winston the Architect"@,
                description: "Expert software architect specializing in system design, architectural review, and technical decision-making"@,
                executor_name: "bmad/architect"@,
                capabilities: seq!["architecture-review"@, "system-design"@, "technical-decisions"@, "pattern-selection"@, "scalability-analysis"@, "api-design"@, "trade-off-analysis"@],
            },
            AgentMetadataView {
                name: "bmad-master"@,
                display_name: "BMad Master"@,
                description: "Meta-agent with holistic BMAD-METHOD knowledge for complex multi-domain orchestration"@,
                executor_name: "bmad/bmad-master"@,
                capabilities: seq!["multi-agent-orchestration"@, "workflow-design"@, "methodology-guidance"@, "agent-selection"@, "cross-domain-coordination"@, "bmad-method-expertise"@],
            },
            AgentMetadataView {
                name: "developer"@,
                display_name: "Amelia the Developer"@,
                description: "Ultra-succinct, technically precise developer focused on clean implementation"@,
                executor_name: "bmad/dev"@,
                capabilities: seq!["code-implementation"@, "code-review"@, "refactoring"@, "debugging"@, "technical-documentation"@, "test-writing"@],
            },
            AgentMetadataView {
                name: "devops"@,
                display_name: "Devon the DevOps Engineer"@,
                description: "DevOps engineer specializing in CI/CD pipelines, infrastructure as code, and deployment automation"@,
                executor_name: "bmad/devops"@,
                capabilities: seq!["cicd-pipeline-design"@, "infrastructure-as-code"@, "deployment-automation"@, "container-orchestration"@, "monitoring-setup"@, "incident-response"@],
            },
            AgentMetadataView {
                name: "pm"@,
                display_name: "John the PM"@,
                description: "Requirements-focused product manager who relentlessly asks WHY and validates user value"@,
                executor_name: "bmad/pm"@,
                capabilities: seq!["requirements-validation"@, "user-story-creation"@, "prioritization"@, "stakeholder-communication"@, "roadmap-planning"@, "acceptance-criteria-review"@],
            },
            AgentMetadataView {
                name: "qa"@,
                display_name: "Quinn the QA Engineer"@,
                description: "Practical, test-focused QA engineer with \"ship it and iterate\" philosophy"@,
                executor_name: "bmad/qa"@,
                capabilities: seq!["test-planning"@, "test-case-generation"@, "bug-analysis"@, "quality-assessment"@, "acceptance-criteria-review"@, "risk-assessment"@],
            },
            AgentMetadataView {
                name: "quick-flow-solo-dev"@,
                display_name: "Barry the Quick Dev"@,
                description: "Fast-moving solo developer who creates lean specs and implements small features end-to-end"@,
                executor_name: "bmad/quick-flow-solo-dev"@,
                capabilities: seq!["lean-spec-creation"@, "rapid-implementation"@, "quick-prototyping"@, "small-feature-development"@, "fast-iteration"@, "minimal-viable-solution"@],
            },
            AgentMetadataView {
                name: "scrum-master"@,
                display_name: "Bob the Scrum Master"@,
                description: "Agile facilitator specializing in sprint ceremonies, impediment removal, and team coaching"@,
                executor_name: "bmad/sm"@,
                capabilities: seq!["sprint-planning"@, "retrospective-facilitation"@, "impediment-identification"@, "agile-coaching"@, "backlog-refinement"@, "daily-standup-facilitation"@],
            },
            AgentMetadataView {
                name: "security"@,
                display_name: "Sage the Security Auditor"@,
                description: "Security engineer specializing in threat modeling, code review, and security architecture"@,
                executor_name: "bmad/security"@,
                capabilities: seq!["threat-modeling"@, "security-code-review"@, "vulnerability-assessment"@, "authentication-design"@, "authorization-review"@, "dependency-auditing"@],
            },
            AgentMetadataView {
                name: "tech-writer"@,
                display_name: "Taylor the Tech Writer"@,
                description: "Technical writer specializing in developer documentation, API references, and user guides"@,
                executor_name: "bmad/tech-writer"@,
                capabilities: seq!["api-documentation"@, "user-guide-creation"@, "readme-writing"@, "changelog-writing"@, "onboarding-documentation"@, "content-structure-design"@],
            },
            AgentMetadataView {
                name: "ux-designer"@,
                display_name: "Maya the UX Designer"@,
                description: "Design-focused UX designer specializing in user research, interaction design, and usability analysis"@,
                executor_name: "bmad/ux-designer"@,
                capabilities: seq!["ux-research"@, "wireframe-design"@, "user-journey-mapping"@, "usability-analysis"@, "interaction-design"@, "accessibility-review"@],
            },
        ],
{
}

/// Every agent of the roster has well-formed metadata.
pub proof fn lemma_roster_well_formed()
    ensures
        forall|i: int| 0 <= i < roster().len() ==> is_well_formed(#[trigger] roster()[i]),
{
    analyst::lemma_well_formed();
    architect::lemma_well_formed();
    bmad_master::lemma_well_formed();
    developer::lemma_well_formed();
    devops::lemma_well_formed();
    pm::lemma_well_formed();
    qa::lemma_well_formed();
    quick_flow_solo_dev::lemma_well_formed();
    scrum_master::lemma_well_formed();
    security::lemma_well_formed();
    tech_writer::lemma_well_formed();
    ux_designer::lemma_well_formed();
}

/// No two agents of the roster share an executor name.
pub proof fn lemma_roster_names_distinct()
    ensures
        forall|i: int, j: int|
            0 <= i < roster().len() && 0 <= j < roster().len() && i != j
                ==> #[trigger] roster()[i].executor_name != #[trigger] roster()[j].executor_name,
{
    reveal_strlit("bmad/analyst");
    reveal_strlit("bmad/architect");
    reveal_strlit("bmad/bmad-master");
    reveal_strlit("bmad/dev");
    reveal_strlit("bmad/devops");
    reveal_strlit("bmad/pm");
    reveal_strlit("bmad/qa");
    reveal_strlit("bmad/quick-flow-solo-dev");
    reveal_strlit("bmad/sm");
    reveal_strlit("bmad/security");
    reveal_strlit("bmad/tech-writer");
    reveal_strlit("bmad/ux-designer");
    let r = roster();
    assert(r[0].executor_name == "bmad/analyst"@);
    assert(r[1].executor_name == "bmad/architect"@);
    assert(r[2].executor_name == "bmad/bmad-master"@);
    assert(r[3].executor_name == "bmad/dev"@);
    assert(r[4].executor_name == "bmad/devops"@);
    assert(r[5].executor_name == "bmad/pm"@);
    assert(r[6].executor_name == "bmad/qa"@);
    assert(r[7].executor_name == "bmad/quick-flow-solo-dev"@);
    assert(r[8].executor_name == "bmad/sm"@);
    assert(r[9].executor_name == "bmad/security"@);
    assert(r[10].executor_name == "bmad/tech-writer"@);
    assert(r[11].executor_name == "bmad/ux-designer"@);
    assert forall|i: int, j: int|
        0 <= i < r.len() && 0 <= j < r.len() && i != j implies #[trigger] r[i].executor_name
        != #[trigger] r[j].executor_name by {
        if (i == 2 && j == 10) || (i == 10 && j == 2) {
            assert(r[2].executor_name[5] != r[10].executor_name[5]);
        }
        if (i == 2 && j == 11) || (i == 11 && j == 2) {
            assert(r[2].executor_name[5] != r[11].executor_name[5]);
        }
        if (i == 5 && j == 6) || (i == 6 && j == 5) {
            assert(r[5].executor_name[5] != r[6].executor_name[5]);
        }
        if (i == 5 && j == 8) || (i == 8 && j == 5) {
            assert(r[5].executor_name[5] != r[8].executor_name[5]);
        }
        if (i == 6 && j == 8) || (i == 8 && j == 6) {
            assert(r[6].executor_name[5] != r[8].executor_name[5]);
        }
        if (i == 10 && j == 11) || (i == 11 && j == 10) {
            assert(r[10].executor_name[5] != r[11].executor_name[5]);
        }
    }
}

} // verus!
