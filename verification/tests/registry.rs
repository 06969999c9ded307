use bmad_plugin::error::BmadError;
use bmad_plugin::generated;
use bmad_plugin::registry::{find_agent, list_agents, verify_all_agents, AgentRegistry};

#[test]
fn registry_has_agents() {
    let registry = AgentRegistry::new();
    assert!(registry.count() >= 1, "Registry must have at least 1 agent");
}

#[test]
fn find_known_agent_returns_some() {
    assert!(find_agent("bmad/architect").is_some(), "Expected to find 'bmad/architect' but got None");
}

#[test]
fn find_developer_agent_returns_some() {
    assert!(find_agent("bmad/dev").is_some(), "Expected to find 'bmad/dev' but got None");
}

#[test]
fn find_pm_agent_returns_some() {
    assert!(find_agent("bmad/pm").is_some(), "Expected to find 'bmad/pm' but got None");
}

#[test]
fn find_qa_agent_returns_some() {
    assert!(find_agent("bmad/qa").is_some(), "Expected to find 'bmad/qa' but got None");
}

#[test]
fn find_unknown_agent_returns_none() {
    assert!(find_agent("bmad/nonexistent").is_none());
}

#[test]
fn find_empty_name_returns_none() {
    assert!(find_agent("").is_none());
}

#[test]
fn find_agent_is_case_sensitive() {
    assert!(
        find_agent("bmad/Architect").is_none(),
        "find_agent must be case-sensitive: 'bmad/Architect' should return None"
    );
}

#[test]
fn all_registered_names_have_bmad_prefix() {
    for agent in list_agents() {
        assert!(
            agent.executor_name.starts_with("bmad/"),
            "Agent '{}' has invalid executor name: {}",
            agent.name,
            agent.executor_name
        );
    }
}

#[test]
fn list_agents_returns_sorted_alphabetical() {
    let agents = list_agents();
    for i in 1..agents.len() {
        assert!(
            agents[i - 1].executor_name <= agents[i].executor_name,
            "Agents not sorted: '{}' should come before '{}'",
            agents[i - 1].executor_name,
            agents[i].executor_name
        );
    }
}

#[test]
fn dispatch_valid_agent_returns_ok() {
    let registry = AgentRegistry::new();
    let result = registry.dispatch("bmad/architect", "design a system");
    assert!(result.is_ok(), "Expected Ok for known agent");
    let out = result.unwrap();
    assert_eq!(out.user_context, "design a system");
    assert_eq!(out.system_prompt, generated::architect::metadata().description);
    assert!(out.suggested_params.is_none());
}

#[test]
fn dispatch_unknown_agent_returns_agent_not_found() {
    let registry = AgentRegistry::new();
    let result = registry.dispatch("bmad/nonexistent", "some task");
    assert!(
        matches!(&result, Err(BmadError::AgentNotFound(name)) if name == "bmad/nonexistent"),
        "Expected AgentNotFound with the unrecognized name, got: {:?}",
        result
    );
}

#[test]
fn dispatch_empty_name_returns_invalid_input() {
    let registry = AgentRegistry::new();
    assert!(matches!(registry.dispatch("", "task"), Err(BmadError::InvalidInput(_))));
}

#[test]
fn dispatch_whitespace_name_returns_invalid_input() {
    let registry = AgentRegistry::new();
    assert!(matches!(registry.dispatch("   ", "task"), Err(BmadError::InvalidInput(_))));
}

#[test]
fn agent_count_matches_source_files() {
    const EXPECTED_AGENT_COUNT: usize = 12;
    assert_eq!(
        list_agents().len(),
        EXPECTED_AGENT_COUNT,
        "Agent count mismatch: update EXPECTED_AGENT_COUNT or add missing .md files in agents/"
    );
}

#[test]
fn all_agent_fields_non_empty() {
    for agent in list_agents() {
        assert!(!agent.name.is_empty(), "name is empty for executor '{}'", agent.executor_name);
        assert!(
            !agent.display_name.is_empty(),
            "display_name is empty for executor '{}'",
            agent.executor_name
        );
        assert!(
            !agent.description.is_empty(),
            "description is empty for executor '{}'",
            agent.executor_name
        );
        assert!(
            !agent.capabilities.is_empty(),
            "capabilities is empty for executor '{}'",
            agent.executor_name
        );
    }
}

#[test]
fn no_duplicate_executor_names() {
    let all = generated::all_agents();
    let mut names: Vec<&str> = all.iter().map(|a| a.executor_name).collect();
    let original_len = names.len();
    names.sort();
    names.dedup();
    assert_eq!(
        names.len(),
        original_len,
        "Duplicate executor names found in generated agent list — {} source agents reduced to {} unique names",
        original_len,
        names.len()
    );
}

#[test]
fn verify_all_agents_returns_results_for_all_registered_agents() {
    let results = verify_all_agents();
    assert!(!results.is_empty());
    for r in &results {
        assert!(r.executor_name.starts_with("bmad/"));
    }
}

#[test]
fn verify_all_agents_count_matches_registry() {
    let results = verify_all_agents();
    assert_eq!(
        results.len(),
        list_agents().len(),
        "verify_all_agents must return one result per registered agent"
    );
}

#[test]
fn verify_all_agents_all_pass_with_valid_input() {
    let results = verify_all_agents();
    let failures: Vec<_> = results.iter().filter(|r| !r.passed).collect();
    assert!(failures.is_empty(), "Unexpected failures: {:?}", failures);
}

#[test]
fn verify_all_agents_passed_true_implies_no_failure_reason() {
    let results = verify_all_agents();
    for r in &results {
        if r.passed {
            assert!(
                r.failure_reason.is_none(),
                "Agent '{}': passed=true but failure_reason is Some({:?})",
                r.executor_name,
                r.failure_reason
            );
        } else {
            assert!(
                r.failure_reason.is_some(),
                "Agent '{}': passed=false but failure_reason is None",
                r.executor_name
            );
        }
    }
}

#[test]
fn all_executor_names_follow_bmad_namespace() {
    for agent in list_agents() {
        assert!(
            agent.executor_name.starts_with("bmad/"),
            "executor_name '{}' does not start with 'bmad/'",
            agent.executor_name
        );
        let identifier = &agent.executor_name["bmad/".len()..];
        assert!(!identifier.is_empty(), "executor identifier must not be empty for '{}'", agent.executor_name);
        assert!(
            identifier.chars().all(|c| c.is_lowercase() || c.is_ascii_digit() || c == '-'),
            "executor identifier '{}' contains invalid characters (must be lowercase, digits, hyphens only)",
            identifier
        );
    }
}

#[test]
fn list_agents_exact_order() {
    let names: Vec<&str> = list_agents().iter().map(|a| a.executor_name).collect();
    assert_eq!(
        names,
        vec![
            "bmad/analyst",
            "bmad/architect",
            "bmad/bmad-master",
            "bmad/dev",
            "bmad/devops",
            "bmad/pm",
            "bmad/qa",
            "bmad/quick-flow-solo-dev",
            "bmad/security",
            "bmad/sm",
            "bmad/tech-writer",
            "bmad/ux-designer",
        ]
    );
}

#[test]
fn registry_lookup_agrees_with_listing() {
    let registry = AgentRegistry::default();
    for agent in registry.list_agents() {
        let found = registry.find_agent(agent.executor_name).expect("listed agent must be found");
        assert_eq!(found.name, agent.name);
        assert_eq!(find_agent(agent.executor_name).unwrap().display_name, agent.display_name);
    }
    assert_eq!(registry.count(), registry.list_agents().len());
}

#[test]
fn verify_all_agents_names_permute_the_listing() {
    let results = verify_all_agents();
    let listed = list_agents();
    let mut probed: Vec<String> = results.iter().map(|r| r.executor_name.clone()).collect();
    probed.sort();
    let names: Vec<String> = listed.iter().map(|a| a.executor_name.to_string()).collect();
    assert_eq!(probed, names);
    assert!(results.iter().all(|r| r.executor_name.starts_with("bmad/")));
}
