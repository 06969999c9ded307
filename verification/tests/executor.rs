use bmad_plugin::executor::{
    BmadExecutor, BmadInput, BmadOutput, PluginError, TaskInput, TaskPayload, MAX_INPUT_LEN,
};
use bmad_plugin::generated;
use bmad_plugin::metadata::AgentMetadata;
use bmad_plugin::output::GenerationParams;

const TEST_META: AgentMetadata = AgentMetadata {
    name: "test-agent",
    display_name: "Test Agent",
    description: "A test agent for unit testing",
    executor_name: "bmad/test-agent",
    capabilities: &["testing"],
};

const TEST_SYSTEM_PROMPT: &str = "You are a test agent. Be thorough and precise.";

fn bmad_input(agent: &str, prompt: &str) -> BmadInput {
    BmadInput {
        agent: Some(agent.to_string()),
        prompt: Some(prompt.to_string()),
        system_prompt: None,
        user_prompt_template: None,
    }
}

fn task_with(description: &str, input: TaskPayload) -> TaskInput {
    TaskInput { task_id: "t-1".to_string(), description: description.to_string(), input: Some(input) }
}

fn test_task(prompt: &str) -> TaskInput {
    task_with(prompt, TaskPayload::Bmad(bmad_input(TEST_META.executor_name, prompt)))
}

fn test_exec() -> BmadExecutor {
    BmadExecutor::for_agent(TEST_META, TEST_SYSTEM_PROMPT, None, None)
}

fn run(exec: &BmadExecutor, task: TaskInput) -> Result<BmadOutput, PluginError> {
    exec.execute(&task)
}

#[test]
fn executor_returns_output_for_valid_input() {
    let result = run(&test_exec(), test_task("Review this design."));
    assert!(result.is_ok());
    let out = result.unwrap();
    assert!(!out.system_prompt.is_empty());
    assert_eq!(out.user_context, "Review this design.");
}

#[test]
fn executor_returns_error_for_empty_input() {
    let task = task_with("", TaskPayload::Text("   ".to_string()));
    let result = run(&test_exec(), task);
    assert!(matches!(result, Err(ref e) if e.code == "invalid_input"));
}

#[test]
fn executor_name_matches_metadata() {
    assert_eq!(test_exec().executor_name(), "bmad/test-agent");
}

#[test]
fn system_prompt_uses_constant_not_description() {
    let out = run(&test_exec(), test_task("do something")).unwrap();
    assert_eq!(out.system_prompt, TEST_SYSTEM_PROMPT);
    assert_ne!(out.system_prompt, TEST_META.description);
}

#[test]
fn valid_agent_dispatch_returns_ok_with_full_system_prompt() {
    let exec = BmadExecutor::for_agent(
        generated::architect::metadata(),
        generated::architect::SYSTEM_PROMPT,
        generated::architect::suggested_params(),
        generated::architect::suggested_config(),
    );
    assert_eq!(exec.executor_name(), "bmad/architect");
    let task = task_with(
        "review the service mesh architecture",
        TaskPayload::Bmad(bmad_input("bmad/architect", "review the service mesh architecture")),
    );
    let result = run(&exec, task);
    assert!(result.is_ok(), "Expected Ok from architect executor");
    let out = result.unwrap();
    assert!(
        out.system_prompt.len() > 100,
        "Expected full SYSTEM_PROMPT (>100 chars), got {} chars",
        out.system_prompt.len()
    );
    assert_eq!(out.user_context, "review the service mesh architecture");
}

#[test]
fn execute_empty_string_returns_invalid_input() {
    let task = task_with("", TaskPayload::Text(String::new()));
    let err = run(&test_exec(), task).expect_err("empty input must return Err");
    assert_eq!(err.code, "invalid_input");
    assert!(err.message.contains("empty"), "AC3: error message must contain 'empty', got: {}", err.message);
}

#[test]
fn execute_whitespace_only_returns_invalid_input() {
    let task = task_with("", TaskPayload::Text("   \t\n  ".to_string()));
    let err = run(&test_exec(), task).expect_err("whitespace-only input must return Err");
    assert_eq!(err.code, "invalid_input");
    assert!(
        err.message.contains("empty"),
        "AC3: whitespace-only must give same error message, got: {}",
        err.message
    );
}

#[test]
fn user_context_preserved_verbatim() {
    let input = "Review this API design...";
    let out = run(&test_exec(), test_task(input)).unwrap();
    assert_eq!(out.user_context, input);
}

#[test]
fn system_prompt_non_empty_for_all_agents() {
    for (meta, prompt, _params, _config) in generated::all_agent_entries() {
        assert!(!prompt.is_empty(), "system_prompt must be non-empty for agent {}", meta.name);
    }
}

#[test]
fn two_outputs_from_same_executor_are_independent() {
    let exec = test_exec();
    let out1 = run(&exec, test_task("first input")).unwrap();
    let out2 = run(&exec, test_task("second input")).unwrap();
    assert_ne!(out1.user_context, out2.user_context);
    assert_eq!(out1.system_prompt, out2.system_prompt);
}

#[test]
fn outputs_own_independent_strings() {
    let exec = test_exec();
    let out1 = run(&exec, test_task("input alpha")).unwrap();
    let out2 = run(&exec, test_task("input beta")).unwrap();
    assert_eq!(out1.user_context, "input alpha");
    assert_eq!(out2.user_context, "input beta");
    assert_eq!(out1.system_prompt, out2.system_prompt);
}

#[test]
fn suggested_params_forwarded_from_constructor() {
    let params = GenerationParams { model: None, temperature_bits: Some(0.7f32.to_bits()), max_tokens: None };
    let exec = BmadExecutor::for_agent(TEST_META, TEST_SYSTEM_PROMPT, Some(params), None);
    let out = run(&exec, test_task("review this")).unwrap();
    let p = out.suggested_params.expect("expected Some(GenerationParams)");
    assert!((f32::from_bits(p.temperature_bits.unwrap()) - 0.7).abs() < f32::EPSILON);
}

#[test]
fn suggested_params_none_when_not_specified() {
    let out = run(&test_exec(), test_task("review this")).unwrap();
    assert!(out.suggested_params.is_none());
}

fn keyword_output(exec: BmadExecutor, agent: &str) -> BmadOutput {
    let task = task_with("test input", TaskPayload::Bmad(bmad_input(agent, "test input")));
    run(&exec, task).unwrap()
}

#[test]
fn architect_system_prompt_contains_persona_keywords() {
    let exec = BmadExecutor::for_agent(
        generated::architect::metadata(),
        generated::architect::SYSTEM_PROMPT,
        generated::architect::suggested_params(),
        generated::architect::suggested_config(),
    );
    let out = keyword_output(exec, "bmad/architect");
    let prompt_lower = out.system_prompt.to_lowercase();
    assert!(
        prompt_lower.contains("architect") || prompt_lower.contains("winston"),
        "Architect SYSTEM_PROMPT must contain 'architect' or 'winston', got: {}",
        &out.system_prompt[..200.min(out.system_prompt.len())]
    );
}

#[test]
fn developer_system_prompt_contains_persona_keywords() {
    let exec = BmadExecutor::for_agent(
        generated::developer::metadata(),
        generated::developer::SYSTEM_PROMPT,
        generated::developer::suggested_params(),
        generated::developer::suggested_config(),
    );
    let out = keyword_output(exec, "bmad/dev");
    let prompt_lower = out.system_prompt.to_lowercase();
    let has_keyword = prompt_lower.contains("concise")
        || prompt_lower.contains("precise")
        || prompt_lower.contains("implementation")
        || prompt_lower.contains("code");
    assert!(has_keyword, "Developer SYSTEM_PROMPT must contain 'concise', 'precise', 'implementation', or 'code'");
}

#[test]
fn pm_system_prompt_contains_persona_keywords() {
    let exec = BmadExecutor::for_agent(
        generated::pm::metadata(),
        generated::pm::SYSTEM_PROMPT,
        generated::pm::suggested_params(),
        generated::pm::suggested_config(),
    );
    let out = keyword_output(exec, "bmad/pm");
    let prompt_lower = out.system_prompt.to_lowercase();
    let has_keyword = prompt_lower.contains("why")
        || prompt_lower.contains("requirements")
        || prompt_lower.contains("user value")
        || prompt_lower.contains("validate");
    assert!(has_keyword, "PM SYSTEM_PROMPT must contain 'why', 'requirements', 'user value', or 'validate'");
}

#[test]
fn qa_system_prompt_contains_persona_keywords() {
    let exec = BmadExecutor::for_agent(
        generated::qa::metadata(),
        generated::qa::SYSTEM_PROMPT,
        generated::qa::suggested_params(),
        generated::qa::suggested_config(),
    );
    let out = keyword_output(exec, "bmad/qa");
    let prompt_lower = out.system_prompt.to_lowercase();
    let has_keyword = prompt_lower.contains("test")
        || prompt_lower.contains("quality")
        || prompt_lower.contains("verify")
        || prompt_lower.contains("ship");
    assert!(has_keyword, "QA SYSTEM_PROMPT must contain 'test', 'quality', 'verify', or 'ship'");
}

#[test]
fn input_at_size_limit_succeeds() {
    let large_prompt = "x".repeat(MAX_INPUT_LEN);
    let task = task_with("test", TaskPayload::Bmad(bmad_input(TEST_META.executor_name, &large_prompt)));
    let result = run(&test_exec(), task);
    assert!(result.is_ok(), "input at exactly MAX_INPUT_LEN should succeed");
}

#[test]
fn input_over_size_limit_returns_error() {
    let large_prompt = "x".repeat(MAX_INPUT_LEN + 1);
    let task = task_with("test", TaskPayload::Bmad(bmad_input(TEST_META.executor_name, &large_prompt)));
    let err = run(&test_exec(), task).expect_err("over-limit input must fail");
    assert_eq!(err.code, "invalid_input");
    assert!(err.message.contains("131072"), "error must contain the limit value, got: {}", err.message);
}

#[test]
fn input_limit_counts_bytes_not_characters() {
    // 65537 two-byte characters: under the limit in characters, over it in bytes
    let prompt = "é".repeat(MAX_INPUT_LEN / 2 + 1);
    let task = task_with("test", TaskPayload::Bmad(bmad_input(TEST_META.executor_name, &prompt)));
    let err = run(&test_exec(), task).expect_err("over-limit input must fail");
    assert_eq!(err.message, "input exceeds maximum length of 131072 bytes");
}

#[test]
fn metadata_plugin_name_is_bmad_method() {
    let out = run(&test_exec(), test_task("check plugin name")).unwrap();
    assert_eq!(out.metadata.plugin_name, "bmad-method");
}

#[test]
fn generated_config_architect_is_opus() {
    let cfg = generated::architect::suggested_config().unwrap();
    assert_eq!(cfg.model_tier.as_deref(), Some("opus"));
    assert_eq!(cfg.max_turns, Some(20));
    assert_eq!(cfg.permission_mode.as_deref(), Some("plan"));
}

#[test]
fn generated_config_bmad_master_is_opus() {
    let cfg = generated::bmad_master::suggested_config().unwrap();
    assert_eq!(cfg.model_tier.as_deref(), Some("opus"));
}

#[test]
fn generated_config_dev_is_sonnet_bypass() {
    let cfg = generated::developer::suggested_config().unwrap();
    assert_eq!(cfg.model_tier.as_deref(), Some("sonnet"));
    assert_eq!(cfg.permission_mode.as_deref(), Some("bypassPermissions"));
    assert_eq!(cfg.max_turns, Some(30));
}

#[test]
fn generated_config_qa_is_sonnet_plan() {
    let cfg = generated::qa::suggested_config().unwrap();
    assert_eq!(cfg.model_tier.as_deref(), Some("sonnet"));
    assert_eq!(cfg.max_turns, Some(15));
    assert_eq!(cfg.permission_mode.as_deref(), Some("plan"));
}

#[test]
fn analyst_system_prompt_contains_persona_keywords() {
    let prompt = generated::analyst::SYSTEM_PROMPT.to_lowercase();
    assert!(
        prompt.contains("analyst") || prompt.contains("market") || prompt.contains("research") || prompt.contains("requirements"),
        "Analyst SYSTEM_PROMPT must contain relevant keywords"
    );
}

#[test]
fn bmad_master_system_prompt_contains_persona_keywords() {
    let prompt = generated::bmad_master::SYSTEM_PROMPT.to_lowercase();
    assert!(
        prompt.contains("orchestrat") || prompt.contains("workflow") || prompt.contains("master") || prompt.contains("knowledge"),
        "BmadMaster SYSTEM_PROMPT must contain relevant keywords"
    );
}

#[test]
fn devops_system_prompt_contains_persona_keywords() {
    let prompt = generated::devops::SYSTEM_PROMPT.to_lowercase();
    assert!(
        prompt.contains("pipeline") || prompt.contains("infrastructure") || prompt.contains("deployment") || prompt.contains("ci"),
        "DevOps SYSTEM_PROMPT must contain relevant keywords"
    );
}

#[test]
fn quick_flow_solo_dev_system_prompt_contains_persona_keywords() {
    let prompt = generated::quick_flow_solo_dev::SYSTEM_PROMPT.to_lowercase();
    assert!(
        prompt.contains("quick") || prompt.contains("lean") || prompt.contains("spec") || prompt.contains("barry"),
        "QuickFlowSoloDev SYSTEM_PROMPT must contain relevant keywords"
    );
}

#[test]
fn scrum_master_system_prompt_contains_persona_keywords() {
    let prompt = generated::scrum_master::SYSTEM_PROMPT.to_lowercase();
    assert!(
        prompt.contains("sprint") || prompt.contains("agile") || prompt.contains("scrum") || prompt.contains("ceremony"),
        "ScrumMaster SYSTEM_PROMPT must contain relevant keywords"
    );
}

#[test]
fn security_system_prompt_contains_persona_keywords() {
    let prompt = generated::security::SYSTEM_PROMPT.to_lowercase();
    assert!(
        prompt.contains("threat") || prompt.contains("security") || prompt.contains("vulnerabilit") || prompt.contains("defense"),
        "Security SYSTEM_PROMPT must contain relevant keywords"
    );
}

#[test]
fn tech_writer_system_prompt_contains_persona_keywords() {
    let prompt = generated::tech_writer::SYSTEM_PROMPT.to_lowercase();
    assert!(
        prompt.contains("documentation") || prompt.contains("clarity") || prompt.contains("technical writ"),
        "TechWriter SYSTEM_PROMPT must contain relevant keywords"
    );
}

#[test]
fn ux_designer_system_prompt_contains_persona_keywords() {
    let prompt = generated::ux_designer::SYSTEM_PROMPT.to_lowercase();
    assert!(
        prompt.contains("user experience") || prompt.contains("ux") || prompt.contains("design") || prompt.contains("empathy"),
        "UxDesigner SYSTEM_PROMPT must contain relevant keywords"
    );
}

#[test]
fn generated_config_analyst_is_sonnet_default() {
    let cfg = generated::analyst::suggested_config().unwrap();
    assert_eq!(cfg.model_tier.as_deref(), Some("sonnet"));
    assert_eq!(cfg.max_turns, Some(20));
    assert_eq!(cfg.permission_mode.as_deref(), Some("plan"));
}

#[test]
fn generated_config_devops_is_sonnet_default() {
    let cfg = generated::devops::suggested_config().unwrap();
    assert_eq!(cfg.model_tier.as_deref(), Some("sonnet"));
    assert_eq!(cfg.max_turns, Some(20));
    assert_eq!(cfg.permission_mode.as_deref(), Some("plan"));
}

#[test]
fn generated_config_security_is_sonnet_default() {
    let cfg = generated::security::suggested_config().unwrap();
    assert_eq!(cfg.model_tier.as_deref(), Some("sonnet"));
    assert_eq!(cfg.max_turns, Some(20));
    assert_eq!(cfg.permission_mode.as_deref(), Some("plan"));
}

#[test]
fn all_agents_have_suggested_config() {
    for (meta, _prompt, _params, config) in generated::all_agent_entries() {
        assert!(config.is_some(), "agent '{}' must have a suggested_config", meta.name);
    }
}

#[test]
fn output_contains_schema_version() {
    let out = run(&test_exec(), test_task("test")).unwrap();
    assert_eq!(out.schema_version, "1.1");
}

#[test]
fn output_metadata_contains_capabilities() {
    let exec = BmadExecutor::for_agent(
        generated::architect::metadata(),
        generated::architect::SYSTEM_PROMPT,
        generated::architect::suggested_params(),
        generated::architect::suggested_config(),
    );
    let out = keyword_output(exec, "bmad/architect");
    assert!(!out.metadata.capabilities.is_empty(), "architect must have at least 1 capability in output");
    assert!(
        out.metadata.capabilities.contains(&"architecture-review".to_string()),
        "architect capabilities must contain 'architecture-review'"
    );
}

#[test]
fn all_agents_have_capabilities_in_output() {
    for (meta, prompt, params, config) in generated::all_agent_entries() {
        let exec = BmadExecutor::for_agent(meta, prompt, params, config);
        let task = task_with("test", TaskPayload::Bmad(bmad_input(meta.executor_name, "test")));
        let out = run(&exec, task).unwrap();
        assert!(
            !out.metadata.capabilities.is_empty(),
            "agent '{}' must have at least 1 capability in output",
            meta.name
        );
    }
}

// ---- resolution of the agent and the prompt ----

#[test]
fn normalized_agent_adds_prefix() {
    let input = bmad_input("architect", "x");
    assert_eq!(input.normalized_agent().as_deref(), Some("bmad/architect"));
    let input = bmad_input("bmad/qa", "x");
    assert_eq!(input.normalized_agent().as_deref(), Some("bmad/qa"));
}

#[test]
fn normalized_agent_reads_system_prompt() {
    let input = BmadInput {
        agent: None,
        prompt: None,
        system_prompt: Some("Act as bmad/ux-designer, then report.".to_string()),
        user_prompt_template: None,
    };
    assert_eq!(input.normalized_agent().as_deref(), Some("bmad/ux-designer"));
    let input = BmadInput {
        agent: Some(String::new()),
        prompt: None,
        system_prompt: Some("use bmad/tech_writer2 now".to_string()),
        user_prompt_template: None,
    };
    assert_eq!(input.normalized_agent().as_deref(), Some("bmad/tech_writer2"));
}

#[test]
fn normalized_agent_none_without_name() {
    let input = BmadInput {
        agent: None,
        prompt: None,
        system_prompt: Some("nothing here, bmad/ alone".to_string()),
        user_prompt_template: None,
    };
    assert_eq!(input.normalized_agent(), None);
    let input = BmadInput { agent: None, prompt: None, system_prompt: None, user_prompt_template: None };
    assert_eq!(input.normalized_agent(), None);
}

#[test]
fn resolved_prompt_prefers_prompt_then_template() {
    let mut input = BmadInput {
        agent: None,
        prompt: Some("p".to_string()),
        system_prompt: None,
        user_prompt_template: Some("t".to_string()),
    };
    assert_eq!(input.resolved_prompt().as_deref(), Some("p"));
    input.prompt = None;
    assert_eq!(input.resolved_prompt().as_deref(), Some("t"));
    input.user_prompt_template = None;
    assert_eq!(input.resolved_prompt(), None);
}

#[test]
fn user_context_falls_back_to_description() {
    let input = BmadInput { agent: Some("qa".to_string()), prompt: None, system_prompt: None, user_prompt_template: None };
    let out = run(&test_exec(), task_with("from the description", TaskPayload::Bmad(input))).unwrap();
    assert_eq!(out.user_context, "from the description");
    let out = run(&test_exec(), TaskInput { task_id: "t".to_string(), description: "no input".to_string(), input: None }).unwrap();
    assert_eq!(out.user_context, "no input");
    let out = run(&test_exec(), task_with("d", TaskPayload::Other("{\"a\":1}".to_string()))).unwrap();
    assert_eq!(out.user_context, "{\"a\":1}");
}

fn assert_send_sync<T: Send + Sync>() {}

#[test]
fn executor_is_send_and_sync() {
    assert_send_sync::<BmadExecutor>();
}

#[test]
fn normalized_agent_takes_unicode_letters_and_stops_at_punctuation() {
    let input = BmadInput {
        agent: None,
        prompt: None,
        system_prompt: Some("hand off to bmad/Café-2.0 next".to_string()),
        user_prompt_template: None,
    };
    assert_eq!(input.normalized_agent().as_deref(), Some("bmad/Café-2"));
    let input = BmadInput {
        agent: None,
        prompt: None,
        system_prompt: Some("first bmad/qa, then bmad/dev".to_string()),
        user_prompt_template: None,
    };
    assert_eq!(input.normalized_agent().as_deref(), Some("bmad/qa"));
}
