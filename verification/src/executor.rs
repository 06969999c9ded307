//! Turning a task into the prompt data of one agent.
use vstd::prelude::*;

use crate::metadata::AgentMetadata;
use crate::output::{opt_view, GenerationParams, SuggestedConfig};
use crate::text::{
    chars_of, clone_opt_string, concat, find, find_chars, has_prefix, is_alphanumeric, is_blank,
    is_blank_str, is_name_char, leading_name, lemma_bmad_prefix_idempotent, lemma_find_from_occurs,
    lemma_leading_name_at,
    prefix_executor_name, with_bmad_prefix,
};

verus! {

/// Maximum input size in bytes (128KB). Prevents oversized payloads from causing
/// excessive memory allocation, especially in WASM environments.
pub const MAX_INPUT_LEN: usize = 131072;

/// The version of this plugin that its output reports.
pub const PLUGIN_VERSION: &'static str = "0.1.0";

/// The length in bytes of the UTF-8 encoding of `s`, as `str::len` gives it.
pub open spec fn utf8_len(s: Seq<char>) -> usize {
    vstd::utf8::encode_utf8(s).len() as usize
}

/// The input a Pulse workflow hands to a BMAD step.
#[derive(Debug)]
pub struct BmadInput {
    /// Agent name, e.g. "bmad/architect" or "architect".
    /// When called from a Pulse workflow, this is extracted from `system_prompt` if not set directly.
    pub agent: Option<String>,
    /// Optional. If omitted, falls back to `user_prompt_template` or `task.description`.
    pub prompt: Option<String>,
    /// Pulse workflow passes system_prompt: the agent name is read from its "bmad/<name>" pattern.
    pub system_prompt: Option<String>,
    /// Pulse workflow passes user_prompt_template: used as prompt fallback.
    pub user_prompt_template: Option<String>,
}

/// The agent that a prompt refers to: the name characters right after the first
/// `bmad/` in it, put in the `bmad/` namespace, when there are any.
pub open spec fn agent_in_prompt(prompt: Option<Seq<char>>) -> Option<Seq<char>> {
    match prompt {
        Some(p) => match find(p, "bmad/"@) {
            Some(i) => {
                let name = leading_name(p.skip(i + 5));
                if name.len() > 0 {
                    Some("bmad/"@ + name)
                } else {
                    None
                }
            },
            None => None,
        },
        None => None,
    }
}

/// The agent an input asks for: its non-empty `agent` field in the `bmad/`
/// namespace, else the agent that its system prompt refers to.
pub open spec fn normalize_agent(agent: Option<Seq<char>>, system_prompt: Option<Seq<char>>) -> Option<
    Seq<char>,
> {
    match agent {
        Some(a) => if a.len() > 0 {
            Some(with_bmad_prefix(a))
        } else {
            agent_in_prompt(system_prompt)
        },
        None => agent_in_prompt(system_prompt),
    }
}

impl BmadInput {
    /// The prompt of the input: `prompt`, else `user_prompt_template`.
    pub open spec fn spec_resolved_prompt(&self) -> Option<String> {
        if self.prompt is Some {
            self.prompt
        } else {
            self.user_prompt_template
        }
    }

    /// Returns the agent name normalized with the `bmad/` prefix.
    /// Resolves agent from: explicit `agent` field, or `system_prompt` pattern "bmad/<name>".
    /// Returns None if no agent can be resolved.
    pub fn normalized_agent(&self) -> (r: Option<String>)
        ensures
            opt_view(r) == normalize_agent(opt_view(self.agent), opt_view(self.system_prompt)),
    {
        if let Some(agent) = &self.agent {
            if agent.as_str().unicode_len() > 0 {
                return Some(prefix_executor_name(agent.as_str()));
            }
        }
        match &self.system_prompt {
            Some(prompt) => agent_named_in(prompt.as_str()),
            None => None,
        }
    }

    /// Resolve the user prompt from available fields.
    pub fn resolved_prompt(&self) -> (r: Option<String>)
        ensures
            r == self.spec_resolved_prompt(),
    {
        if self.prompt.is_some() {
            clone_opt_string(&self.prompt)
        } else {
            clone_opt_string(&self.user_prompt_template)
        }
    }
}

/// The agent that `prompt` refers to (see `agent_in_prompt`).
fn agent_named_in(prompt: &str) -> (r: Option<String>)
    ensures
        opt_view(r) == agent_in_prompt(Some(prompt@)),
{
    let v = chars_of(prompt);
    let pat = chars_of("bmad/");
    let len = v.len();
    match find_chars(&v, &pat) {
        Some(i) => {
            proof {
                lemma_find_from_occurs(v@, pat@, 0);
                assert(crate::text::occurs_at(v@, pat@, i as int));
                assert(i + pat@.len() <= v@.len());
            }
            let start = i + pat.len();
            let mut j = start;
            while j < len && (is_alphanumeric(v[j]) || v[j] == '-' || v[j] == '_')
                invariant
                    v@ == prompt@,
                    len == v@.len(),
                    start <= j <= v.len(),
                    forall|k: int| start <= k < j ==> is_name_char(#[trigger] v@[k]),
                decreases len - j,
            {
                j = j + 1;
            }
            proof {
                let rest = v@.skip(start as int);
                assert forall|k: int| 0 <= k < j - start implies is_name_char(#[trigger] rest[k]) by {
                    assert(rest[k] == v@[start + k]);
                }
                if j < v.len() {
                    assert(rest[j - start] == v@[j as int]);
                }
                lemma_leading_name_at(rest, j - start);
                assert(rest.take(j - start) =~= v@.subrange(start as int, j as int));
                reveal_strlit("bmad/");
            }
            if j > start {
                let name = prompt.substring_char(start, j);
                Some(concat("bmad/", name))
            } else {
                None
            }
        },
        None => None,
    }
}

/// An error as the Pulse plugin interface reports it: a machine-readable code
/// and a human-readable message.
#[derive(Debug)]
pub struct PluginError {
    pub code: String,
    pub message: String,
}

impl PluginError {
    /// An error with code `invalid_input`.
    pub fn invalid_input(message: &str) -> (e: Self)
        ensures
            e.code@ == "invalid_input"@,
            e.message@ == message@,
    {
        PluginError { code: String::from_str("invalid_input"), message: String::from_str(message) }
    }

    /// An error with code `not_found`.
    pub fn not_found(message: &str) -> (e: Self)
        ensures
            e.code@ == "not_found"@,
            e.message@ == message@,
    {
        PluginError { code: String::from_str("not_found"), message: String::from_str(message) }
    }

    /// An error with code `internal`.
    pub fn internal(message: &str) -> (e: Self)
        ensures
            e.code@ == "internal"@,
            e.message@ == message@,
    {
        PluginError { code: String::from_str("internal"), message: String::from_str(message) }
    }
}

/// The JSON input of a task, as far as this plugin reads it.
#[derive(Debug)]
pub enum TaskPayload {
    /// The JSON value reads as a `BmadInput`.
    Bmad(BmadInput),
    /// The JSON value is a string (that does not read as a `BmadInput`).
    Text(String),
    /// Any other JSON value, in its compact JSON rendering.
    Other(String),
}

/// A task handed to an executor.
#[derive(Debug)]
pub struct TaskInput {
    pub task_id: String,
    pub description: String,
    pub input: Option<TaskPayload>,
}

/// The text a task asks the agent to work on: the prompt of a BMAD input (else
/// the task description), a JSON string as it stands, any other JSON value as
/// rendered, and the description when the task has no input.
pub open spec fn task_text(task: TaskInput) -> Seq<char> {
    match task.input {
        None => task.description@,
        Some(TaskPayload::Bmad(b)) => match b.spec_resolved_prompt() {
            Some(p) => p@,
            None => task.description@,
        },
        Some(TaskPayload::Text(s)) => s@,
        Some(TaskPayload::Other(s)) => s@,
    }
}

/// What is wrong with `text` as the user context of a step, if anything: more than
/// `MAX_INPUT_LEN` bytes, or nothing but white space.
pub open spec fn input_problem(text: Seq<char>) -> Option<Seq<char>> {
    if utf8_len(text) > MAX_INPUT_LEN {
        Some("input exceeds maximum length of 131072 bytes"@)
    } else if is_blank(text) {
        Some("input cannot be empty"@)
    } else {
        None
    }
}

/// The user context of `task`: its text, when that text is acceptable.
pub fn extract_user_context(task: &TaskInput) -> (r: Result<String, PluginError>)
    ensures
        match input_problem(task_text(*task)) {
            Some(msg) => (r matches Err(e) && e.code@ == "invalid_input"@ && e.message@ == msg),
            None => (r matches Ok(t) && t@ == task_text(*task)),
        },
{
    let text = match &task.input {
        Some(TaskPayload::Bmad(bmad)) => match bmad.resolved_prompt() {
            Some(p) => p,
            None => task.description.clone(),
        },
        Some(TaskPayload::Text(s)) => s.clone(),
        Some(TaskPayload::Other(s)) => s.clone(),
        None => task.description.clone(),
    };
    if text.as_str().len() > MAX_INPUT_LEN {
        return Err(PluginError::invalid_input("input exceeds maximum length of 131072 bytes"));
    }
    if is_blank_str(text.as_str()) {
        return Err(PluginError::invalid_input("input cannot be empty"));
    }
    Ok(text)
}

/// The metadata block of an executor's output.
#[derive(Debug)]
pub struct BmadOutputMetadata {
    pub persona: String,
    pub plugin_name: String,
    pub plugin_version: String,
    pub capabilities: Vec<String>,
}

/// The output of a BMAD step: the prompt data Pulse hands to its model.
#[derive(Debug)]
pub struct BmadOutput {
    pub schema_version: String,
    pub agent: String,
    pub system_prompt: String,
    /// Raw task input. Not sanitized: consumer must sanitize before rendering
    /// in injection-sensitive contexts.
    pub user_context: String,
    pub suggested_params: Option<GenerationParams>,
    pub suggested_config: Option<SuggestedConfig>,
    pub metadata: BmadOutputMetadata,
}

/// The executor of one agent.
pub struct BmadExecutor {
    metadata: AgentMetadata,
    system_prompt: &'static str,
    suggested_params: Option<GenerationParams>,
    suggested_config: Option<SuggestedConfig>,
}

/// The text of each string of `v`.
pub open spec fn string_views(v: Seq<String>) -> Seq<Seq<char>> {
    v.map_values(|s: String| s@)
}

/// Copies of the capability tags of an agent.
fn capability_strings(caps: &[&'static str]) -> (r: Vec<String>)
    ensures
        string_views(r@) == caps@.map_values(|c: &str| c@),
{
    let mut r: Vec<String> = Vec::new();
    let mut i: usize = 0;
    while i < caps.len()
        invariant
            i <= caps@.len(),
            string_views(r@) == caps@.take(i as int).map_values(|c: &str| c@),
        decreases caps@.len() - i,
    {
        let c: &str = caps[i];
        let tag = String::from_str(c);
        let ghost before = r@;
        r.push(tag);
        assert(string_views(r@) =~= string_views(before).push(c@));
        assert(caps@.take(i + 1) =~= caps@.take(i as int).push(caps@[i as int]));
        assert(string_views(r@) =~= caps@.take(i + 1).map_values(|c: &str| c@));
        i = i + 1;
    }
    assert(caps@.take(i as int) =~= caps@);
    r
}

impl BmadExecutor {
    /// The agent this executor serves.
    pub closed spec fn agent(&self) -> AgentMetadata {
        self.metadata
    }

    /// The system prompt this executor hands out.
    pub closed spec fn prompt(&self) -> Seq<char> {
        self.system_prompt@
    }

    /// The generation parameters this executor suggests.
    pub closed spec fn params(&self) -> Option<GenerationParams> {
        self.suggested_params
    }

    /// The runtime settings this executor suggests.
    pub closed spec fn config(&self) -> Option<SuggestedConfig> {
        self.suggested_config
    }

    /// Whether `out` is this executor's answer to a task with user context `context`.
    pub open spec fn answers(&self, out: BmadOutput, context: Seq<char>) -> bool {
        &&& out.schema_version@ == "1.1"@
        &&& out.agent@ == self.agent().executor_name@
        &&& out.system_prompt@ == self.prompt()
        &&& out.user_context@ == context
        &&& out.suggested_params == self.params()
        &&& out.suggested_config == self.config()
        &&& out.metadata.persona@ == self.agent().name@
        &&& out.metadata.plugin_name@ == "bmad-method"@
        &&& out.metadata.plugin_version@ == PLUGIN_VERSION@
        &&& string_views(out.metadata.capabilities@) == self.agent()@.capabilities
    }

    /// The executor of the agent `metadata` with the given prompt and suggestions.
    pub fn for_agent(
        metadata: AgentMetadata,
        system_prompt: &'static str,
        suggested_params: Option<GenerationParams>,
        suggested_config: Option<SuggestedConfig>,
    ) -> (r: Self)
        ensures
            r.agent() == metadata,
            r.prompt() == system_prompt@,
            r.params() == suggested_params,
            r.config() == suggested_config,
    {
        Self { metadata, system_prompt, suggested_params, suggested_config }
    }

    /// The executor name of the agent.
    pub fn executor_name(&self) -> (r: &str)
        ensures
            r@ == self.agent().executor_name@,
    {
        self.metadata.executor_name
    }

    /// Answers `task`: the agent's system prompt and the task's text as user
    /// context, or the `invalid_input` error that the text calls for.
    pub fn execute(&self, task: &TaskInput) -> (r: Result<BmadOutput, PluginError>)
        ensures
            match input_problem(task_text(*task)) {
                Some(msg) => (r matches Err(e) && e.code@ == "invalid_input"@ && e.message@ == msg),
                None => (r matches Ok(out) && self.answers(out, task_text(*task))),
            },
    {
        let user_context = match extract_user_context(task) {
            Ok(t) => t,
            Err(e) => return Err(e),
        };
        let suggested_params = match &self.suggested_params {
            Some(p) => Some(p.clone()),
            None => None,
        };
        let suggested_config = match &self.suggested_config {
            Some(c) => Some(c.clone()),
            None => None,
        };
        Ok(
            BmadOutput {
                schema_version: String::from_str("1.1"),
                agent: String::from_str(self.metadata.executor_name),
                system_prompt: String::from_str(self.system_prompt),
                user_context,
                suggested_params,
                suggested_config,
                metadata: BmadOutputMetadata {
                    persona: String::from_str(self.metadata.name),
                    plugin_name: String::from_str("bmad-method"),
                    plugin_version: String::from_str(PLUGIN_VERSION),
                    capabilities: capability_strings(self.metadata.capabilities),
                },
            },
        )
    }
}

/// The agent an input asks for lies in the `bmad/` namespace, and an input that
/// names that agent explicitly asks for the same agent.
pub proof fn lemma_normalized_agent_stable(
    agent: Option<Seq<char>>,
    system_prompt: Option<Seq<char>>,
    other_prompt: Option<Seq<char>>,
)
    ensures
        normalize_agent(agent, system_prompt) matches Some(n) ==> {
            &&& has_prefix(n, "bmad/"@)
            &&& normalize_agent(Some(n), other_prompt) == Some(n)
        },
{
    reveal_strlit("bmad/");
    if let Some(n) = normalize_agent(agent, system_prompt) {
        if agent is Some && agent->0.len() > 0 {
            lemma_bmad_prefix_idempotent(agent->0);
        } else {
            assert(n.subrange(0, 5) =~= "bmad/"@);
        }
        assert(n.len() > 0);
        lemma_bmad_prefix_idempotent(n);
    }
}

/// Two answers of one executor carry the same prompt data and differ at most in
/// their user context, which is each task's own text.
pub proof fn lemma_answers_share_all_but_context(
    exec: BmadExecutor,
    out1: BmadOutput,
    context1: Seq<char>,
    out2: BmadOutput,
    context2: Seq<char>,
)
    requires
        exec.answers(out1, context1),
        exec.answers(out2, context2),
    ensures
        out1.schema_version@ == out2.schema_version@,
        out1.agent@ == out2.agent@,
        out1.system_prompt@ == out2.system_prompt@,
        out1.suggested_params == out2.suggested_params,
        out1.suggested_config == out2.suggested_config,
        out1.metadata.persona@ == out2.metadata.persona@,
        string_views(out1.metadata.capabilities@) == string_views(out2.metadata.capabilities@),
        out1.user_context@ == context1,
        out2.user_context@ == context2,
        context1 != context2 ==> out1.user_context@ != out2.user_context@,
{
}

} // verus!
