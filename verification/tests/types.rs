use bmad_plugin::config::BmadConfig;
use bmad_plugin::error::BmadError;
use bmad_plugin::metadata::AgentMetadata;
use bmad_plugin::output::{AgentOutput, GenerationParams};

// ---- error messages ----

#[test]
fn agent_not_found_message() {
    let err = BmadError::AgentNotFound("architect".to_string());
    assert_eq!(err.to_string(), "agent 'architect' not found");
}

#[test]
fn invalid_input_message() {
    let err = BmadError::InvalidInput("input cannot be empty".to_string());
    assert_eq!(err.to_string(), "invalid input: input cannot be empty");
}

#[test]
fn execution_failed_message() {
    let err = BmadError::ExecutionFailed("timeout after 30s".to_string());
    assert_eq!(err.to_string(), "execution failed: timeout after 30s");
}

#[test]
fn error_messages_are_lowercase() {
    let errors = vec![
        BmadError::AgentNotFound("test".to_string()),
        BmadError::InvalidInput("reason".to_string()),
        BmadError::ExecutionFailed("cause".to_string()),
    ];
    for err in errors {
        let msg = err.to_string();
        assert_eq!(msg, msg.to_lowercase(), "Error message must be lowercase: {}", msg);
        assert!(!msg.ends_with('.'), "Error message must not end with punctuation: {}", msg);
    }
}

// ---- metadata ----

#[test]
fn agent_metadata_construction() {
    let meta = AgentMetadata {
        name: "architect",
        display_name: "Winston the Architect",
        description: "Architecture review and design guidance",
        executor_name: "bmad/architect",
        capabilities: &["architecture", "design", "review"],
    };
    assert_eq!(meta.name, "architect");
    assert_eq!(meta.executor_name, "bmad/architect");
    assert_eq!(meta.capabilities.len(), 3);
}

#[test]
fn capabilities_is_static_slice() {
    let caps: &'static [&'static str] = &["planning", "analysis"];
    let meta = AgentMetadata {
        name: "pm",
        display_name: "John the PM",
        description: "Product management tasks",
        executor_name: "bmad/pm",
        capabilities: caps,
    };
    assert!(meta.capabilities.contains(&"planning"));
}

// ---- output ----

#[test]
fn agent_output_with_no_params() {
    let output = AgentOutput {
        system_prompt: "You are a senior architect.".to_string(),
        user_context: "Review this design.".to_string(),
        suggested_params: None,
    };
    assert!(output.suggested_params.is_none());
    assert!(!output.system_prompt.is_empty());
}

#[test]
fn agent_output_with_params() {
    let params = GenerationParams {
        model: Some("gpt-4".to_string()),
        temperature_bits: Some(0.7f32.to_bits()),
        max_tokens: Some(2048),
    };
    let output = AgentOutput {
        system_prompt: "You are a QA engineer.".to_string(),
        user_context: "Write tests for this.".to_string(),
        suggested_params: Some(params),
    };
    assert!(output.suggested_params.is_some());
    let p = output.suggested_params.unwrap();
    assert_eq!(p.model.as_deref(), Some("gpt-4"));
    assert!((f32::from_bits(p.temperature_bits.unwrap()) - 0.7).abs() < f32::EPSILON);
    assert_eq!(p.max_tokens, Some(2048));
}

#[test]
fn agent_output_fields_are_owned_strings() {
    let s1 = String::from("prompt");
    let s2 = String::from("context");
    let output = AgentOutput {
        system_prompt: s1.clone(),
        user_context: s2.clone(),
        suggested_params: None,
    };
    let copy = output.clone();
    assert_eq!(copy.system_prompt, s1);
    assert_eq!(copy.user_context, s2);
}

// ---- step configuration ----

#[test]
fn parses_required_field() {
    let cfg = BmadConfig::from_step_config(Ok(BmadConfig {
        agent_name: "architect".to_string(),
        context: None,
    }))
    .unwrap();
    assert_eq!(cfg.agent_name, "architect");
    assert!(cfg.context.is_none());
}

#[test]
fn parses_with_optional_context() {
    let cfg = BmadConfig::from_step_config(Ok(BmadConfig {
        agent_name: "dev".to_string(),
        context: Some("focus on error handling".to_string()),
    }))
    .unwrap();
    assert_eq!(cfg.agent_name, "dev");
    assert_eq!(cfg.context.as_deref(), Some("focus on error handling"));
}

#[test]
fn rejects_unknown_fields() {
    let result = BmadConfig::from_step_config(Err(
        "unknown field `typo`, expected `agent_name` or `context` at line 1 column 32".to_string(),
    ));
    assert!(
        matches!(result, Err(BmadError::InvalidInput(_))),
        "deny_unknown_fields must reject unknown keys"
    );
}

#[test]
fn rejects_missing_agent_name() {
    let result =
        BmadConfig::from_step_config(Err("missing field `agent_name` at line 1 column 27".to_string()));
    assert!(matches!(result, Err(BmadError::InvalidInput(_))), "agent_name is required");
}

#[test]
fn rejects_invalid_json() {
    let result = BmadConfig::from_step_config(Err("expected ident at line 1 column 2".to_string()));
    match result {
        Err(BmadError::InvalidInput(msg)) => assert_eq!(
            msg,
            "invalid step config: expected ident at line 1 column 2; expected {\"agent_name\": \"<name>\"}"
        ),
        other => panic!("expected InvalidInput, got {:?}", other),
    }
}

#[test]
fn executor_name_adds_prefix_when_missing() {
    let cfg = BmadConfig { agent_name: "architect".to_string(), context: None };
    assert_eq!(cfg.executor_name(), "bmad/architect");
}

#[test]
fn executor_name_preserves_existing_prefix() {
    let cfg = BmadConfig { agent_name: "bmad/architect".to_string(), context: None };
    assert_eq!(cfg.executor_name(), "bmad/architect");
}

#[test]
fn executor_name_prefixing_is_idempotent() {
    let once = BmadConfig { agent_name: "qa".to_string(), context: None }.executor_name();
    let twice = BmadConfig { agent_name: once.clone(), context: None }.executor_name();
    assert_eq!(once, "bmad/qa");
    assert_eq!(twice, once);
}
