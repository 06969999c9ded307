//! The step executor plugin: one executor for the whole roster, choosing the agent per request.
use vstd::prelude::*;

use crate::executor::{
    input_problem, normalize_agent, BmadExecutor, BmadInput, BmadOutput, PluginError,
    TaskInput, TaskPayload, PLUGIN_VERSION,
};
use crate::generated::{
    all_agent_entries, all_agents, is_roster_entry, lemma_roster_names_distinct, roster,
    roster_configs, roster_prompts,
};
use crate::output::opt_view;
use crate::registry::list_agents;
use crate::text::{concat, concat3, join, join_strings, str_eq};

verus! {

/// Name, version and description of the plugin.
#[derive(Debug)]
pub struct PluginInfo {
    pub name: String,
    pub version: String,
    pub description: Option<String>,
}

/// The step input of a request, as read from the task's JSON text.
#[derive(Debug)]
pub enum PluginRequest {
    /// The task carries no input.
    Missing,
    /// The input does not read as a `BmadInput`; the reader's message.
    Malformed(String),
    /// The input, read as a `BmadInput`.
    Parsed(BmadInput),
}

/// The BMAD-METHOD plugin: a single step executor for every agent of the roster.
pub struct BmadMethodPlugin;

/// The message of a request without input.
pub open spec fn missing_input_message() -> Seq<char> {
    "task input is required; send JSON {\"agent\": \"bmad/architect\", \"prompt\": \"...\"}"@
}

/// The executor names of the roster, in roster order.
pub open spec fn roster_names() -> Seq<Seq<char>> {
    roster().map_values(|m: crate::metadata::AgentMetadataView| m.executor_name)
}

/// The message for a request naming an agent that the roster lacks.
pub open spec fn unknown_agent_message(name: Seq<char>) -> Seq<char> {
    "Unknown agent persona: "@ + name + ". Available: ["@ + join(roster_names(), ", "@) + "]"@
}

/// The index of the roster agent whose executor name is `name`, if there is one.
pub open spec fn roster_index(name: Seq<char>) -> Option<int> {
    if exists|i: int| 0 <= i < roster().len() && (#[trigger] roster()[i]).executor_name == name {
        Some(choose|i: int| 0 <= i < roster().len() && (#[trigger] roster()[i]).executor_name == name)
    } else {
        None
    }
}

/// Whether `out` is the answer of the `k`-th roster agent to a task with user context `context`.
pub open spec fn answers_as(out: BmadOutput, k: int, context: Seq<char>) -> bool {
    &&& out.schema_version@ == "1.1"@
    &&& out.agent@ == roster()[k].executor_name
    &&& out.system_prompt@ == roster_prompts()[k]
    &&& out.user_context@ == context
    &&& out.suggested_params is None
    &&& (out.suggested_config matches Some(c) && c@ == roster_configs()[k])
    &&& out.metadata.persona@ == roster()[k].name
    &&& out.metadata.plugin_name@ == "bmad-method"@
    &&& out.metadata.plugin_version@ == PLUGIN_VERSION@
    &&& crate::executor::string_views(out.metadata.capabilities@) == roster()[k].capabilities
}

/// The text a parsed request asks the agent to work on.
pub open spec fn request_text(input: BmadInput, description: Seq<char>) -> Seq<char> {
    match input.spec_resolved_prompt() {
        Some(p) => p@,
        None => description,
    }
}

/// The name a parsed request asks for, or the empty name when it names none.
pub open spec fn requested_name(input: BmadInput) -> Seq<char> {
    match normalize_agent(opt_view(input.agent), opt_view(input.system_prompt)) {
        Some(n) => n,
        None => Seq::empty(),
    }
}

/// The list of executor names that an unknown-agent message offers.
fn available_names() -> (r: String)
    ensures
        r@ == join(roster_names(), ", "@),
{
    let agents = all_agents();
    let mut names: Vec<String> = Vec::new();
    let mut i: usize = 0;
    while i < agents.len()
        invariant
            i <= agents@.len(),
            agents@.len() == roster().len(),
            forall|k: int| 0 <= k < agents@.len() ==> #[trigger] agents@[k]@ == roster()[k],
            names@.len() == i,
            forall|k: int| 0 <= k < i ==> #[trigger] names@[k]@ == roster()[k].executor_name,
        decreases agents@.len() - i,
    {
        let ghost before = names@;
        names.push(String::from_str(agents[i].executor_name));
        assert(agents@[i as int]@ == roster()[i as int]);
        assert forall|k: int| 0 <= k < i + 1 implies #[trigger] names@[k]@ == roster()[k].executor_name by {
            if k < i {
                assert(names@[k] == before[k]);
            }
        }
        i = i + 1;
    }
    assert(names@.map_values(|x: String| x@) =~= roster_names());
    join_strings(&names, ", ")
}

impl BmadMethodPlugin {
    /// Name, version and description of the plugin.
    pub fn get_info(&self) -> (r: PluginInfo)
        ensures
            r.name@ == "bmad-method"@,
            r.version@ == PLUGIN_VERSION@,
            r.description matches Some(d) && d@
                == "BMAD AI team \u{2014} 12 specialized agents (architect, dev, pm, qa, \u{2026}) as a single step executor"@,
    {
        PluginInfo {
            name: String::from_str("bmad-method"),
            version: String::from_str(PLUGIN_VERSION),
            description: Some(
                String::from_str(
                    "BMAD AI team \u{2014} 12 specialized agents (architect, dev, pm, qa, \u{2026}) as a single step executor",
                ),
            ),
        }
    }

    /// Whether the plugin can serve requests: it has at least one agent.
    pub fn health_check(&self) -> (r: bool)
        ensures
            r == (roster().len() > 0),
    {
        let agents = list_agents();
        proof {
            broadcast use vstd::seq_lib::group_to_multiset_ensures;

            let v = crate::registry::views(agents@);
            assert(v.to_multiset().len() == roster().to_multiset().len());
            assert(roster().len() == roster().to_multiset().len());
            assert(v.len() == v.to_multiset().len());
        }
        agents.len() > 0
    }

    /// Answers a request: the agent it names works on its prompt (else the task
    /// description). A request without input, or whose input does not read as a
    /// BMAD input, is `invalid_input`; one that names no agent of the roster is `not_found`.
    pub fn execute(&self, description: String, request: PluginRequest) -> (r: Result<BmadOutput, PluginError>)
        ensures
            match request {
                PluginRequest::Missing => (r matches Err(e) && e.code@ == "invalid_input"@
                    && e.message@ == missing_input_message()),
                PluginRequest::Malformed(msg) => (r matches Err(e) && e.code@ == "invalid_input"@
                    && e.message@ == "invalid BMAD input JSON: "@ + msg@),
                PluginRequest::Parsed(input) => match roster_index(requested_name(input)) {
                    None => (r matches Err(e) && e.code@ == "not_found"@
                        && e.message@ == unknown_agent_message(requested_name(input))),
                    Some(k) => match input_problem(request_text(input, description@)) {
                        Some(msg) => (r matches Err(e) && e.code@ == "invalid_input"@
                            && e.message@ == msg),
                        None => (r matches Ok(out) && answers_as(out, k, request_text(input, description@))),
                    },
                },
            },
    {
        let input = match request {
            PluginRequest::Missing => {
                return Err(
                    PluginError::invalid_input(
                        "task input is required; send JSON {\"agent\": \"bmad/architect\", \"prompt\": \"...\"}",
                    ),
                );
            },
            PluginRequest::Malformed(msg) => {
                return Err(PluginError::invalid_input(concat("invalid BMAD input JSON: ", msg.as_str()).as_str()));
            },
            PluginRequest::Parsed(input) => input,
        };
        let ghost parsed = input;
        let name = match input.normalized_agent() {
            Some(n) => n,
            None => String::new(),
        };
        assert(name@ == requested_name(parsed));
        let mut entries = all_agent_entries();
        proof {
            lemma_roster_names_distinct();
        }
        let mut i: usize = 0;
        while i < entries.len()
            invariant
                i <= entries@.len(),
                entries@.len() == roster().len(),
                forall|k: int| 0 <= k < entries@.len() ==> is_roster_entry(#[trigger] entries@[k], k),
                forall|k: int| 0 <= k < i ==> (#[trigger] roster()[k]).executor_name != name@,
            ensures
                i <= entries@.len(),
                i < entries@.len() ==> roster()[i as int].executor_name == name@,
                forall|k: int| 0 <= k < i ==> (#[trigger] roster()[k]).executor_name != name@,
            decreases entries@.len() - i,
        {
            if str_eq(entries[i].0.executor_name, name.as_str()) {
                assert(entries@[i as int].0@ == roster()[i as int]);
                break;
            }
            i = i + 1;
        }
        if i == entries.len() {
            let available = available_names();
            let msg = concat3(concat("Unknown agent persona: ", name.as_str()).as_str(), ". Available: [", available.as_str());
            let msg = concat(msg.as_str(), "]");
            return Err(PluginError::not_found(msg.as_str()));
        }
        proof {
            assert(entries@[i as int].0@.executor_name == roster()[i as int].executor_name);
            assert(roster()[i as int].executor_name == name@);
            let c = choose|j: int| 0 <= j < roster().len() && (#[trigger] roster()[j]).executor_name == name@;
            assert(c == i);
        }
        let (meta, prompt, params, config) = entries.remove(i);
        let exec = BmadExecutor::for_agent(meta, prompt, params, config);
        let task = TaskInput {
            task_id: String::new(),
            description,
            input: Some(TaskPayload::Bmad(input)),
        };
        exec.execute(&task)
    }
}

impl Default for BmadMethodPlugin {
    fn default() -> (r: Self)
        ensures
            r == BmadMethodPlugin,
    {
        BmadMethodPlugin
    }
}

/// Every agent of the roster is found under its own executor name.
pub proof fn lemma_every_agent_is_served(k: int)
    requires
        0 <= k < roster().len(),
    ensures
        roster_index(roster()[k].executor_name) == Some(k),
{
    lemma_roster_names_distinct();
    let n = roster()[k].executor_name;
    assert(roster()[k].executor_name == n);
    let c = choose|i: int| 0 <= i < roster().len() && (#[trigger] roster()[i]).executor_name == n;
    assert(c == k);
}

} // verus!
