use bmad_plugin::codegen::{generate_agent_file, generate_mod_file, is_module_file_name, output_files, stamped_output_files};
use bmad_plugin::converter::{
    agent_file_name, extension_of, is_agent_file_name, parse_directory, parse_file, sort_by_name, to_snake_case,
    AgentFile, FrontMatter, FrontMatterDocument, ParsedAgent,
};

fn front_matter(
    name: Option<&str>,
    display_name: Option<&str>,
    description: Option<&str>,
    executor: Option<&str>,
    capabilities: Option<&[&str]>,
) -> FrontMatter {
    FrontMatter {
        name: name.map(|s| s.to_string()),
        display_name: display_name.map(|s| s.to_string()),
        description: description.map(|s| s.to_string()),
        executor: executor.map(|s| s.to_string()),
        capabilities: capabilities.map(|c| c.iter().map(|s| s.to_string()).collect()),
        temperature_bits: None,
        model_tier: None,
        max_turns: None,
        permission_mode: None,
    }
}

fn document(metadata: FrontMatter, content: &str) -> Result<FrontMatterDocument, String> {
    Ok(FrontMatterDocument { metadata, content: content.to_string() })
}

fn make_agent(name: &str) -> ParsedAgent {
    ParsedAgent {
        name: name.to_string(),
        display_name: format!("{} Display", name),
        description: format!("{} description", name),
        executor_name: format!("bmad/{}", name),
        capabilities: vec!["cap".to_string()],
        body: format!("# {}\n\nBody.", name),
        temperature_bits: None,
        model_tier: None,
        max_turns: None,
        permission_mode: None,
    }
}

#[test]
fn parse_valid_agent_file() {
    let content = "---\nname: architect\n...\n---\n\n# Winston the Architect\n\nYou are a senior software architect.\n";
    let fm = front_matter(
        Some("architect"),
        Some("Winston the Architect"),
        Some("Architecture review and design guidance"),
        Some("bmad/architect"),
        Some(&["architecture-review", "system-design"]),
    );
    let body = "\n# Winston the Architect\n\nYou are a senior software architect.\n";
    let agent = parse_file("architect.md", content, document(fm, body)).expect("should parse valid file");
    assert_eq!(agent.name, "architect");
    assert_eq!(agent.display_name, "Winston the Architect");
    assert_eq!(agent.executor_name, "bmad/architect");
    assert_eq!(agent.capabilities, vec!["architecture-review", "system-design"]);
    assert!(agent.body.contains("Winston the Architect"));
    assert_eq!(agent.body, "# Winston the Architect\n\nYou are a senior software architect.");
}

#[test]
fn parse_file_missing_frontmatter_delimiter() {
    let content = "No frontmatter here\nJust markdown content.";
    let result = parse_file("plain.md", content, Err("EOF while parsing a value".to_string()));
    assert!(result.is_err());
    let msg = result.unwrap_err();
    assert!(msg.contains("frontmatter") || msg.contains("parse"), "Error: {}", msg);
}

#[test]
fn parse_file_malformed_yaml() {
    let content = "---\nname: [unclosed bracket\n---\n# Body";
    let result = parse_file("bad.md", content, Err("did not find expected ',' or ']'".to_string()));
    assert!(result.is_err());
}

#[test]
fn parse_file_missing_required_field_name() {
    let content = "---\ndisplayName: \"Some Agent\"\n---\nBody\n";
    let fm = front_matter(None, Some("Some Agent"), Some("desc"), Some("bmad/test"), Some(&["cap"]));
    let result = parse_file("noname.md", content, document(fm, "Body\n"));
    assert!(result.is_err());
    let msg = result.unwrap_err();
    assert!(msg.contains("'name'"), "Error should mention 'name': {}", msg);
    assert_eq!(msg, "missing required field 'name' in noname.md");
}

#[test]
fn parse_file_missing_fields_reported_in_order() {
    let fm = front_matter(Some("x"), Some("X"), None, None, None);
    let msg = parse_file("x.md", "---\n---\nBody", document(fm, "Body")).unwrap_err();
    assert_eq!(msg, "missing required field 'description' in x.md");
    let fm = front_matter(Some("x"), Some("X"), Some("d"), Some("bmad/x"), None);
    let msg = parse_file("x.md", "---\n---\nBody", document(fm, "Body")).unwrap_err();
    assert_eq!(msg, "missing required field 'capabilities' in x.md");
}

#[test]
fn parse_file_empty_file() {
    let result = parse_file("empty.md", "", Err("no front matter".to_string()));
    assert!(result.is_err());
    let msg = result.unwrap_err();
    assert!(msg.contains("empty"), "Error should mention 'empty': {}", msg);
    assert_eq!(msg, "file is empty: empty.md");
}

#[test]
fn parse_file_capabilities_as_vec() {
    let fm = front_matter(
        Some("qa"),
        Some("Quinn the QA"),
        Some("Quality assurance"),
        Some("bmad/qa"),
        Some(&["test-generation", "bug-analysis", "quality-review"]),
    );
    let agent = parse_file("qa.md", "---\n---\nBody\n", document(fm, "Body\n")).expect("should parse");
    assert_eq!(agent.capabilities.len(), 3);
    assert!(agent.capabilities.contains(&"test-generation".to_string()));
}

#[test]
fn parse_file_with_temperature_field() {
    let mut fm = front_matter(
        Some("qa"),
        Some("Quinn the QA"),
        Some("Quality assurance"),
        Some("bmad/qa"),
        Some(&["test-generation"]),
    );
    fm.temperature_bits = Some(0.7f32.to_bits());
    let agent = parse_file("qa.md", "---\n---\nBody text.\n", document(fm, "Body text.\n"))
        .expect("should parse agent with temperature");
    assert_eq!(
        agent.temperature_bits.map(f32::from_bits),
        Some(0.7_f32),
        "temperature field should be parsed as Some(0.7)"
    );
}

#[test]
fn parse_file_without_temperature_field_yields_none() {
    let fm = front_matter(
        Some("architect"),
        Some("Winston the Architect"),
        Some("Architecture review"),
        Some("bmad/architect"),
        Some(&["architecture-review"]),
    );
    let agent = parse_file("a.md", "---\n---\nBody text.\n", document(fm, "Body text.\n"))
        .expect("should parse agent without temperature");
    assert_eq!(agent.temperature_bits, None, "temperature should be None when not present in frontmatter");
}

#[test]
fn test_minimal_valid_agent_parses_successfully() {
    let fm = front_matter(
        Some("my-specialist"),
        Some("Maya the Specialist"),
        Some("Provides expert guidance on specialized domain tasks"),
        Some("bmad/my-specialist"),
        Some(&["domain-analysis", "task-decomposition", "recommendation-generation"]),
    );
    let body = "\n# My Specialist\n\nYou are Maya the Specialist.\n";
    let result = parse_file("my-specialist.md", "---\n---\n# My Specialist", document(fm, body));
    assert!(result.is_ok(), "schema minimal example must parse without error");
    let agent = result.unwrap();
    assert!(!agent.name.is_empty(), "name must be non-empty");
    assert!(!agent.display_name.is_empty(), "display_name must be non-empty");
    assert!(!agent.description.is_empty(), "description must be non-empty");
    assert!(!agent.executor_name.is_empty(), "executor_name must be non-empty");
    assert!(
        agent.executor_name.starts_with("bmad/"),
        "executor_name must start with 'bmad/', got: {}",
        agent.executor_name
    );
    assert!(agent.capabilities.len() >= 1, "capabilities must have at least 1 entry, got: {}", agent.capabilities.len());
    assert!(!agent.body.is_empty(), "body (system prompt) must be non-empty");
}

fn agent_file(path: &str, name: &str) -> AgentFile {
    let fm = front_matter(
        Some(name),
        Some("Agent"),
        Some("desc"),
        Some(&format!("bmad/{}", name)),
        Some(&["cap"]),
    );
    AgentFile { path: path.to_string(), content: "---\n---\nBody".to_string(), document: document(fm, "Body") }
}

#[test]
fn parse_directory_with_two_agents() {
    let files = vec![agent_file("dir/zebra.md", "zebra"), agent_file("dir/alpha.md", "alpha")];
    let agents = parse_directory(files).expect("should parse directory");
    assert_eq!(agents.len(), 2);
    assert_eq!(agents[0].name, "alpha");
    assert_eq!(agents[1].name, "zebra");
}

#[test]
fn parse_directory_reports_first_failing_file() {
    let mut bad = agent_file("dir/bad.md", "bad");
    bad.content = "  \n".to_string();
    let files = vec![agent_file("dir/ok.md", "ok"), bad, agent_file("dir/other.md", "other")];
    let msg = parse_directory(files).unwrap_err();
    assert_eq!(msg, "failed to parse agent file: dir/bad.md: file is empty: dir/bad.md");
}

#[test]
fn sort_by_name_is_stable() {
    let mut a1 = make_agent("same");
    a1.description = "first".to_string();
    let mut a2 = make_agent("same");
    a2.description = "second".to_string();
    let sorted = sort_by_name(vec![make_agent("zulu"), a1, make_agent("alpha"), a2]);
    let names: Vec<&str> = sorted.iter().map(|a| a.name.as_str()).collect();
    assert_eq!(names, vec!["alpha", "same", "same", "zulu"]);
    assert_eq!(sorted[1].description, "first");
    assert_eq!(sorted[2].description, "second");
}

#[test]
fn extension_follows_path_rules() {
    assert_eq!(extension_of("architect.md").as_deref(), Some("md"));
    assert_eq!(extension_of("archive.tar.gz").as_deref(), Some("gz"));
    assert_eq!(extension_of("README"), None);
    assert_eq!(extension_of(".md"), None);
    assert_eq!(extension_of(".."), None);
    assert_eq!(extension_of("trailing."), Some(String::new()));
    assert_eq!(
        extension_of("mod.rs").as_deref(),
        std::path::Path::new("mod.rs").extension().and_then(|e| e.to_str())
    );
}

#[test]
fn write_agent_files_tech_writer_uses_snake_case_filename() {
    let files = output_files(&vec![make_agent("tech-writer")], "2024-01-01T00:00:00+00:00");
    assert!(files.iter().any(|f| f.file_name == "tech_writer.rs"));
    assert!(!files.iter().any(|f| f.file_name == "tech-writer.rs"));
    assert_eq!(agent_file_name("tech-writer"), "tech_writer.rs");
    assert_ne!(agent_file_name("tech-writer"), "tech-writer.rs");
    assert_eq!(to_snake_case("quick-flow-solo-dev"), "quick_flow_solo_dev");
}

#[test]
fn generate_agent_file_renders_metadata_and_prompt() {
    let mut agent = make_agent("tech-writer");
    agent.body = "Say \"hi\" \\ bye".to_string();
    agent.temperature_bits = Some(1061997773);
    let text = generate_agent_file(&agent, "2024-01-01T00:00:00+00:00");
    assert!(text.starts_with("// tech-writer Display (agents/tech-writer.md, 2024-01-01T00:00:00+00:00)\n"));
    assert!(text.contains("pub const SYSTEM_PROMPT: &str = \"Say \\\"hi\\\" \\\\ bye\";\n"));
    assert!(text.contains("        executor_name: \"bmad/tech-writer\",\n"));
    assert!(text.contains("        capabilities: &[\"cap\"],\n"));
    assert!(text.contains("Some(f32::from_bits(1061997773))"));
}

#[test]
fn generate_mod_file_lists_every_agent() {
    let agents = vec![make_agent("architect"), make_agent("tech-writer")];
    let text = generate_mod_file(&agents);
    assert!(text.contains("pub mod architect;\npub mod tech_writer;\n"));
    assert!(text.contains("        architect::metadata(),\n        tech_writer::metadata(),\n"));
    assert!(text.contains(
        "        (tech_writer::metadata(), tech_writer::SYSTEM_PROMPT, tech_writer::suggested_params(), tech_writer::suggested_config()),\n"
    ));
}

#[test]
fn main_compiles() {}

#[test]
fn output_files_write_each_agent_then_the_module_file() {
    let agents = vec![make_agent("architect"), make_agent("developer")];
    let stamp = "2024-01-01T00:00:00+00:00";
    let files = output_files(&agents, stamp);
    let names: Vec<&str> = files.iter().map(|f| f.file_name.as_str()).collect();
    assert_eq!(names, vec!["architect.rs", "developer.rs", "mod.rs"]);
    assert_eq!(files[0].content, generate_agent_file(&agents[0], stamp));
    assert_eq!(files[1].content, generate_agent_file(&agents[1], stamp));
    assert_eq!(files[2].content, generate_mod_file(&agents));
}

#[test]
fn output_files_without_agents_is_the_module_file_alone() {
    let files = output_files(&Vec::new(), "t");
    assert_eq!(files.len(), 1);
    assert_eq!(files[0].file_name, "mod.rs");
}

#[test]
fn only_markdown_files_are_agent_files() {
    assert!(is_agent_file_name("architect.md"));
    assert!(is_agent_file_name("notes.v2.md"));
    assert!(!is_agent_file_name("architect.markdown"));
    assert!(!is_agent_file_name("README"));
    assert!(!is_agent_file_name(".md"));
    assert!(!is_agent_file_name("ARCHITECT.MD"));
}

#[test]
fn only_rust_files_are_replaced_in_the_output_directory() {
    assert!(is_module_file_name("old_stale.rs"));
    assert!(is_module_file_name("mod.rs"));
    assert!(!is_module_file_name("notes.txt"));
    assert!(!is_module_file_name(".rs"));
    assert!(!is_module_file_name("rs"));
}

#[test]
fn stamped_output_files_carry_the_current_utc_time() {
    let agents = vec![make_agent("qa")];
    let (stamp, files) = stamped_output_files(&agents);
    assert!(stamp.ends_with("+00:00"));
    assert!(stamp.starts_with("20"));
    let c: Vec<char> = stamp.chars().collect();
    assert!(c.len() == 25 || c.len() == 29 || c.len() == 32 || c.len() == 35, "stamp: {}", stamp);
    for (i, ch) in c[..19].iter().enumerate() {
        match i {
            4 | 7 => assert_eq!(*ch, '-'),
            10 => assert_eq!(*ch, 'T'),
            13 | 16 => assert_eq!(*ch, ':'),
            _ => assert!(ch.is_ascii_digit(), "stamp: {}", stamp),
        }
    }
    if c.len() > 25 {
        assert_eq!(c[19], '.');
        assert!(c[20..c.len() - 6].iter().all(|ch| ch.is_ascii_digit()));
    }
    assert_eq!(files.len(), 2);
    assert_eq!(files[0].file_name, "qa.rs");
    assert_eq!(files[0].content, generate_agent_file(&agents[0], &stamp));
    assert_ne!(files[0].content, generate_agent_file(&agents[0], "1999-01-01T00:00:00+00:00"));
    assert_eq!(files[1].file_name, "mod.rs");
}

#[test]
fn parse_file_carries_the_runtime_settings() {
    let mut fm = front_matter(Some("dev"), Some("Amelia"), Some("d"), Some("bmad/dev"), Some(&["code"]));
    fm.model_tier = Some("sonnet".to_string());
    fm.max_turns = Some(30);
    fm.permission_mode = Some("bypassPermissions".to_string());
    let agent = parse_file("dev.md", "---\n---\nBody", document(fm, "Body")).unwrap();
    assert_eq!(agent.model_tier.as_deref(), Some("sonnet"));
    assert_eq!(agent.max_turns, Some(30));
    assert_eq!(agent.permission_mode.as_deref(), Some("bypassPermissions"));
}

#[test]
fn generate_agent_file_renders_the_suggested_config() {
    let mut agent = make_agent("architect");
    let text = generate_agent_file(&agent, "t");
    assert!(text.ends_with("pub fn suggested_config() -> Option<SuggestedConfig> {\n    None\n}\n"));
    agent.model_tier = Some("opus".to_string());
    agent.max_turns = Some(20);
    agent.permission_mode = Some("plan".to_string());
    let text = generate_agent_file(&agent, "t");
    assert!(text.ends_with(
        "pub fn suggested_config() -> Option<SuggestedConfig> {\n    Some(SuggestedConfig { model_tier: Some(\"opus\".to_string()), max_turns: Some(20), permission_mode: Some(\"plan\".to_string()) })\n}\n"
    ));
    agent.model_tier = None;
    agent.permission_mode = None;
    let text = generate_agent_file(&agent, "t");
    assert!(text.contains("Some(SuggestedConfig { model_tier: None, max_turns: Some(20), permission_mode: None })"));
}
