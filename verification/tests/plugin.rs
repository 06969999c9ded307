use bmad_plugin::error::BmadError;
use bmad_plugin::executor::{BmadInput, BmadOutput};
use bmad_plugin::generated;
use bmad_plugin::plugin::{BmadMethodPlugin, PluginRequest};
use bmad_plugin::pulse_api_stub::{PluginMetadata, PluginRegistration, PLUGIN_API_VERSION};

fn request(agent: &str, prompt: &str) -> PluginRequest {
    PluginRequest::Parsed(BmadInput {
        agent: Some(agent.to_string()),
        prompt: Some(prompt.to_string()),
        system_prompt: None,
        user_prompt_template: None,
    })
}

#[test]
fn plugin_health_check_returns_true() {
    let plugin = BmadMethodPlugin;
    assert!(plugin.health_check());
}

#[test]
fn plugin_get_info_returns_correct_name() {
    let plugin = BmadMethodPlugin;
    let info = plugin.get_info();
    assert_eq!(info.name, "bmad-method");
    assert!(!info.version.is_empty());
    assert!(info.description.is_some());
}

#[test]
fn all_agents_returns_at_least_one() {
    let agents = generated::all_agents();
    assert!(!agents.is_empty(), "No agents registered");
}

#[test]
fn all_executor_names_start_with_bmad_prefix() {
    for agent in generated::all_agents() {
        assert!(
            agent.executor_name.starts_with("bmad/"),
            "Executor name '{}' must start with 'bmad/'",
            agent.executor_name
        );
    }
}

#[test]
fn execute_missing_input_returns_invalid_input() {
    let plugin = BmadMethodPlugin;
    let err = plugin.execute("test task".to_string(), PluginRequest::Missing).unwrap_err();
    assert_eq!(err.code, "invalid_input");
}

#[test]
fn execute_invalid_json_returns_invalid_input() {
    let plugin = BmadMethodPlugin;
    let reader_message = serde_json::from_str::<serde_json::Value>("not json at all")
        .unwrap_err()
        .to_string();
    let err = plugin
        .execute("test".to_string(), PluginRequest::Malformed(reader_message.clone()))
        .unwrap_err();
    assert_eq!(err.code, "invalid_input");
    assert_eq!(err.message, format!("invalid BMAD input JSON: {}", reader_message));
}

#[test]
fn execute_unknown_agent_returns_not_found() {
    let plugin = BmadMethodPlugin;
    let err = plugin.execute("test".to_string(), request("bmad/nonexistent", "test")).unwrap_err();
    assert_eq!(err.code, "not_found");
    assert!(
        err.message.contains("Unknown agent persona: bmad/nonexistent"),
        "error must name the unknown agent, got: {}",
        err.message
    );
    assert!(err.message.contains("Available:"), "error must list available agents, got: {}", err.message);
}

#[test]
fn unknown_agent_message_lists_roster_in_order() {
    let plugin = BmadMethodPlugin;
    let err = plugin.execute("test".to_string(), request("bmad/nobody", "test")).unwrap_err();
    assert_eq!(
        err.message,
        "Unknown agent persona: bmad/nobody. Available: [bmad/analyst, bmad/architect, bmad/bmad-master, \
         bmad/dev, bmad/devops, bmad/pm, bmad/qa, bmad/quick-flow-solo-dev, bmad/sm, bmad/security, \
         bmad/tech-writer, bmad/ux-designer]"
    );
}

#[test]
fn execute_architect_returns_success() {
    let plugin = BmadMethodPlugin;
    let out = plugin
        .execute("Design a system".to_string(), request("bmad/architect", "Design a microservices architecture"))
        .unwrap();
    assert_eq!(out.user_context, "Design a microservices architecture");
    assert_eq!(out.agent, "bmad/architect");
}

#[test]
fn execute_content_is_valid_json_with_system_prompt() {
    let plugin = BmadMethodPlugin;
    let out: BmadOutput = plugin.execute("test".to_string(), request("bmad/architect", "Design a system")).unwrap();
    assert!(!out.system_prompt.is_empty());
    assert_eq!(out.agent, "bmad/architect");
    assert_eq!(out.user_context, "Design a system");
    assert_eq!(out.metadata.persona, "architect");
    assert_eq!(out.metadata.plugin_name, "bmad-method");
    assert!(!out.metadata.plugin_version.is_empty());
    assert!(out.suggested_config.is_some());
}

#[test]
fn execute_all_agents_return_success() {
    let plugin = BmadMethodPlugin;
    for agent in generated::all_agents() {
        let result = plugin.execute("test".to_string(), request(agent.executor_name, "test input for agent"));
        assert!(result.is_ok(), "execute failed for agent '{}': {:?}", agent.executor_name, result.err());
    }
}

#[test]
fn execute_accepts_short_agent_name() {
    let plugin = BmadMethodPlugin;
    let out = plugin.execute("d".to_string(), request("qa", "check it")).unwrap();
    assert_eq!(out.agent, "bmad/qa");
}

#[test]
fn execute_reads_agent_from_system_prompt() {
    let plugin = BmadMethodPlugin;
    let input = BmadInput {
        agent: None,
        prompt: None,
        system_prompt: Some("You are bmad/pm.".to_string()),
        user_prompt_template: Some("Plan the roadmap".to_string()),
    };
    let out = plugin.execute("unused".to_string(), PluginRequest::Parsed(input)).unwrap();
    assert_eq!(out.agent, "bmad/pm");
    assert_eq!(out.user_context, "Plan the roadmap");
}

#[test]
fn execute_without_agent_is_not_found() {
    let plugin = BmadMethodPlugin;
    let input = BmadInput { agent: None, prompt: Some("hi".to_string()), system_prompt: None, user_prompt_template: None };
    let err = plugin.execute("d".to_string(), PluginRequest::Parsed(input)).unwrap_err();
    assert_eq!(err.code, "not_found");
    assert!(err.message.starts_with("Unknown agent persona: . Available: ["));
}

#[test]
fn plugin_api_version_is_one() {
    assert_eq!(PLUGIN_API_VERSION, 1);
    let reg = PluginRegistration::new(PluginMetadata::new("bmad-method", "0.1.0", PLUGIN_API_VERSION));
    assert_eq!(reg.metadata.api_version, 1);
    assert!(reg.executors.is_empty());
}

// ---- a sequence of steps, as a workflow runs them ----

fn execute_agent(agent_id: &str, prompt: &str) -> Result<BmadOutput, BmadError> {
    if prompt.trim().is_empty() {
        return Err(BmadError::InvalidInput("input cannot be empty".to_string()));
    }
    let entries = generated::all_agent_entries();
    if entries.iter().all(|(meta, _, _, _)| meta.executor_name != agent_id) {
        return Err(BmadError::AgentNotFound(agent_id.to_string()));
    }
    let plugin = BmadMethodPlugin::default();
    plugin.execute(prompt.to_string(), request(agent_id, prompt)).map_err(|e| {
        if e.code == "not_found" {
            BmadError::AgentNotFound(agent_id.to_string())
        } else {
            BmadError::InvalidInput(e.message)
        }
    })
}

#[test]
fn test_three_agent_sequential_workflow() {
    let arch_input = "Design a REST API for user management with CRUD operations";
    let arch_out = execute_agent("bmad/architect", arch_input).expect("architect step should succeed");
    assert!(!arch_out.system_prompt.is_empty(), "architect system_prompt must not be empty");
    assert_eq!(arch_out.user_context, arch_input, "user_context must match input exactly");

    let dev_input = format!(
        "{}\n\n---\nPrevious step output:\n{}",
        "Implement the API designed in the previous step", arch_out.user_context
    );
    let dev_out = execute_agent("bmad/dev", &dev_input).expect("developer step should succeed");
    assert!(!dev_out.system_prompt.is_empty(), "developer system_prompt must not be empty");
    assert_eq!(dev_out.user_context, dev_input, "user_context must match input exactly");

    let qa_input = format!(
        "{}\n\n---\nPrevious step output:\n{}",
        "Write test cases for the implementation in the previous step", dev_out.user_context
    );
    let qa_out = execute_agent("bmad/qa", &qa_input).expect("QA step should succeed");
    assert!(!qa_out.system_prompt.is_empty(), "QA system_prompt must not be empty");
    assert_eq!(qa_out.user_context, qa_input, "user_context must match input exactly");

    assert_ne!(arch_out.system_prompt, dev_out.system_prompt, "agents should have distinct system prompts");
    assert_ne!(dev_out.system_prompt, qa_out.system_prompt, "agents should have distinct system prompts");
    assert!(
        dev_out.user_context.contains(arch_input),
        "dev output must contain architect input (accumulated DAG context at step 2)"
    );
    assert!(
        qa_input.contains(arch_input),
        "QA input must contain the original architect input (accumulated DAG context at step 3)"
    );

    let arch_cfg = arch_out.suggested_config.as_ref().expect("architect must have suggested_config");
    assert_eq!(arch_cfg.model_tier.as_deref(), Some("opus"));
    assert_eq!(arch_cfg.permission_mode.as_deref(), Some("plan"));

    let dev_cfg = dev_out.suggested_config.as_ref().expect("dev must have suggested_config");
    assert_eq!(dev_cfg.model_tier.as_deref(), Some("sonnet"));
    assert_eq!(dev_cfg.permission_mode.as_deref(), Some("bypassPermissions"));

    let qa_cfg = qa_out.suggested_config.as_ref().expect("qa must have suggested_config");
    assert_eq!(qa_cfg.model_tier.as_deref(), Some("sonnet"));
    assert!(qa_cfg.max_turns.unwrap() > 0);

    assert_eq!(arch_out.schema_version, "1.1");
    assert_eq!(dev_out.schema_version, "1.1");
    assert_eq!(qa_out.schema_version, "1.1");

    assert!(!arch_out.metadata.capabilities.is_empty());
}

#[test]
fn test_failed_agent_step_error_contains_agent_name() {
    match execute_agent("bmad/nonexistent-agent", "some input") {
        Err(BmadError::AgentNotFound(name)) => {
            assert!(
                name.contains("nonexistent-agent"),
                "error must contain the unrecognized agent name, got: '{}'",
                name
            );
        }
        other => panic!("expected AgentNotFound, got: {:?}", other),
    }
}

#[test]
fn test_empty_input_error_is_descriptive() {
    match execute_agent("bmad/architect", "") {
        Err(BmadError::InvalidInput(msg)) => {
            assert!(msg.contains("empty"), "error must contain 'empty', got: '{}'", msg);
        }
        other => panic!("expected InvalidInput for empty input, got: {:?}", other),
    }
    match execute_agent("bmad/architect", "   \t\n  ") {
        Err(BmadError::InvalidInput(msg)) => {
            assert!(msg.contains("empty"), "error must contain 'empty' for whitespace input, got: '{}'", msg);
        }
        other => panic!("expected InvalidInput for whitespace input, got: {:?}", other),
    }
}

#[test]
fn test_execute_outputs_are_independent() {
    let out1 = execute_agent("bmad/architect", "input_alpha").expect("first call should succeed");
    let out2 = execute_agent("bmad/architect", "input_beta").expect("second call should succeed");
    assert_eq!(out1.user_context, "input_alpha");
    assert_eq!(out2.user_context, "input_beta");
    assert_eq!(
        out1.system_prompt, out2.system_prompt,
        "system_prompt must be the same static content across calls"
    );
    assert_ne!(out1.user_context, out2.user_context, "outputs with different inputs must differ");
}

#[test]
fn test_no_resource_leak_on_agent_not_found() {
    for i in 0..100 {
        match execute_agent("bmad/nonexistent", "some input") {
            Err(BmadError::AgentNotFound(_)) => {}
            other => panic!("iteration {}: expected AgentNotFound, got: {:?}", i, other),
        }
    }
}

#[test]
fn test_no_resource_leak_on_invalid_input() {
    for i in 0..100 {
        match execute_agent("bmad/architect", "") {
            Err(BmadError::InvalidInput(_)) => {}
            other => panic!("iteration {}: expected InvalidInput, got: {:?}", i, other),
        }
    }
}

#[test]
fn plugin_rejects_blank_prompt_with_empty_message() {
    let plugin = BmadMethodPlugin;
    let err = plugin.execute("   ".to_string(), request("bmad/architect", " \n\t")).unwrap_err();
    assert_eq!(err.code, "invalid_input");
    assert_eq!(err.message, "input cannot be empty");
}
