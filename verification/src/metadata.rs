//! Static description of an agent.
use vstd::prelude::*;

use crate::text::has_prefix;

verus! {

/// Static metadata for a BMAD agent.
#[derive(Debug, Clone, Copy)]
pub struct AgentMetadata {
    /// Short programmatic name, lowercase hyphen-separated (e.g., "architect")
    pub name: &'static str,
    /// Human-readable display name (e.g., "Winston the Architect")
    pub display_name: &'static str,
    /// One-line description of the agent's purpose
    pub description: &'static str,
    /// Pulse executor name in `bmad/{id}` format (e.g., "bmad/architect")
    pub executor_name: &'static str,
    /// List of capability tags for discovery
    pub capabilities: &'static [&'static str],
}

/// The text of an agent's metadata.
pub struct AgentMetadataView {
    pub name: Seq<char>,
    pub display_name: Seq<char>,
    pub description: Seq<char>,
    pub executor_name: Seq<char>,
    pub capabilities: Seq<Seq<char>>,
}

impl View for AgentMetadata {
    type V = AgentMetadataView;

    open spec fn view(&self) -> AgentMetadataView {
        AgentMetadataView {
            name: self.name@,
            display_name: self.display_name@,
            description: self.description@,
            executor_name: self.executor_name@,
            capabilities: self.capabilities@.map_values(|c: &str| c@),
        }
    }
}

/// A character allowed after `bmad/` in an executor name: lowercase ASCII letter, digit or hyphen.
pub open spec fn is_identifier_char(c: char) -> bool {
    ('a' <= c && c <= 'z') || ('0' <= c && c <= '9') || c == '-'
}

/// An executor name of the form `bmad/<identifier>` with a non-empty identifier
/// of lowercase letters, digits and hyphens.
pub open spec fn is_executor_name(s: Seq<char>) -> bool {
    &&& has_prefix(s, "bmad/"@)
    &&& s.len() > 5
    &&& forall|k: int| 5 <= k < s.len() ==> is_identifier_char(#[trigger] s[k])
}

/// Metadata that a registry can serve: every text field is non-empty, the agent
/// has at least one capability, and its executor name lies in the `bmad/` namespace.
pub open spec fn is_well_formed(m: AgentMetadataView) -> bool {
    &&& m.name.len() > 0
    &&& m.display_name.len() > 0
    &&& m.description.len() > 0
    &&& m.capabilities.len() > 0
    &&& is_executor_name(m.executor_name)
}

} // verus!
