//! Reading agent definitions (Markdown with a YAML front matter) and naming the
//! Rust modules that the converter writes for them.
use vstd::prelude::*;

use crate::text::{
    concat, concat3, hyphens_to_underscores, is_blank, is_blank_str, replace_hyphens, seq_lt, trim,
    trim_str,
};

verus! {

/// The front matter of an agent file, field by field as the YAML holds it.
#[derive(Debug)]
pub struct FrontMatter {
    pub name: Option<String>,
    /// `displayName` in the YAML
    pub display_name: Option<String>,
    pub description: Option<String>,
    pub executor: Option<String>,
    pub capabilities: Option<Vec<String>>,
    /// `temperature` in the YAML, an `f32` held as its IEEE-754 bit pattern
    pub temperature_bits: Option<u32>,
    /// `modelTier` in the YAML
    pub model_tier: Option<String>,
    /// `maxTurns` in the YAML
    pub max_turns: Option<u32>,
    /// `permissionMode` in the YAML
    pub permission_mode: Option<String>,
}

/// An agent file split into its front matter and the Markdown body after it.
#[derive(Debug)]
pub struct FrontMatterDocument {
    pub metadata: FrontMatter,
    pub content: String,
}

/// An agent definition read from its file.
#[derive(Debug)]
pub struct ParsedAgent {
    pub name: String,
    pub display_name: String,
    pub description: String,
    pub executor_name: String,
    pub capabilities: Vec<String>,
    /// The Markdown body, trimmed: the agent's system prompt
    pub body: String,
    /// The sampling temperature, an `f32` held as its IEEE-754 bit pattern
    pub temperature_bits: Option<u32>,
    /// The model tier the agent's step should run on
    pub model_tier: Option<String>,
    /// The upper bound on the agent's turns
    pub max_turns: Option<u32>,
    /// The permission mode of the agent's step
    pub permission_mode: Option<String>,
}

/// The first required front-matter field that `fm` lacks, by its YAML key.
pub open spec fn missing_field(fm: FrontMatter) -> Option<Seq<char>> {
    if fm.name is None {
        Some("name"@)
    } else if fm.display_name is None {
        Some("displayName"@)
    } else if fm.description is None {
        Some("description"@)
    } else if fm.executor is None {
        Some("executor"@)
    } else if fm.capabilities is None {
        Some("capabilities"@)
    } else {
        None
    }
}

/// What is wrong with the agent file at `path` with text `content`, given what
/// splitting that text into front matter and body gave, if anything: an empty
/// file, then a front matter that could not be read, then a missing required field.
pub open spec fn file_problem(path: Seq<char>, content: Seq<char>, document: Result<FrontMatterDocument, String>) -> Option<Seq<char>> {
    if is_blank(content) {
        Some("file is empty: "@ + path)
    } else {
        match document {
            Err(e) => Some("failed to parse frontmatter in "@ + path + ": "@ + e@),
            Ok(doc) => match missing_field(doc.metadata) {
                Some(field) => Some("missing required field '"@ + field + "' in "@ + path),
                None => None,
            },
        }
    }
}

/// Whether `agent` is what a well-formed agent file with split `document` defines:
/// the front matter's fields and the trimmed body.
pub open spec fn defines(document: Result<FrontMatterDocument, String>, agent: ParsedAgent) -> bool {
    &&& document matches Ok(doc)
    &&& doc.metadata.name == Some(agent.name)
    &&& doc.metadata.display_name == Some(agent.display_name)
    &&& doc.metadata.description == Some(agent.description)
    &&& doc.metadata.executor == Some(agent.executor_name)
    &&& doc.metadata.capabilities == Some(agent.capabilities)
    &&& agent.body@ == trim(doc.content@)
    &&& agent.temperature_bits == doc.metadata.temperature_bits
    &&& agent.model_tier == doc.metadata.model_tier
    &&& agent.max_turns == doc.metadata.max_turns
    &&& agent.permission_mode == doc.metadata.permission_mode
}

/// Reads the agent defined by the file at `path` with text `content`, given what
/// splitting that text into front matter and body gave.
pub fn parse_file(path: &str, content: &str, document: Result<FrontMatterDocument, String>) -> (r: Result<
    ParsedAgent,
    String,
>)
    ensures
        match file_problem(path@, content@, document) {
            Some(msg) => (r matches Err(m) && m@ == msg),
            None => (r matches Ok(agent) && defines(document, agent)),
        },
        r matches Ok(agent) ==> (document matches Ok(doc) && doc.metadata.description == Some(agent.description)
            && doc.metadata.display_name == Some(agent.display_name) && doc.metadata.name == Some(agent.name)
            && doc.metadata.executor == Some(agent.executor_name)),
{
    if is_blank_str(content) {
        return Err(concat("file is empty: ", path));
    }
    let doc = match document {
        Ok(doc) => doc,
        Err(e) => {
            let head = concat("failed to parse frontmatter in ", path);
            return Err(concat3(head.as_str(), ": ", e.as_str()));
        },
    };
    let body = trim_str(doc.content.as_str());
    let fm = doc.metadata;
    let name = match fm.name {
        Some(v) => v,
        None => return Err(missing_field_message("name", path)),
    };
    let display_name = match fm.display_name {
        Some(v) => v,
        None => return Err(missing_field_message("displayName", path)),
    };
    let description = match fm.description {
        Some(v) => v,
        None => return Err(missing_field_message("description", path)),
    };
    let executor_name = match fm.executor {
        Some(v) => v,
        None => return Err(missing_field_message("executor", path)),
    };
    let capabilities = match fm.capabilities {
        Some(v) => v,
        None => return Err(missing_field_message("capabilities", path)),
    };
    Ok(
        ParsedAgent {
            name,
            display_name,
            description,
            executor_name,
            capabilities,
            body,
            temperature_bits: fm.temperature_bits,
            model_tier: fm.model_tier,
            max_turns: fm.max_turns,
            permission_mode: fm.permission_mode,
        },
    )
}

/// A parsed agent takes each field from the front-matter field of the same
/// meaning (its description from `description`, its display name from
/// `displayName`, ...) and its body from the trimmed Markdown body; so two
/// documents that agree on a field give agents that agree on it, whatever their
/// other fields hold.
pub proof fn lemma_parsed_fields(document: Result<FrontMatterDocument, String>, agent: ParsedAgent)
    requires
        defines(document, agent),
    ensures
        document is Ok,
        document->Ok_0.metadata.name == Some(agent.name),
        document->Ok_0.metadata.display_name == Some(agent.display_name),
        document->Ok_0.metadata.description == Some(agent.description),
        document->Ok_0.metadata.executor == Some(agent.executor_name),
        document->Ok_0.metadata.capabilities == Some(agent.capabilities),
        document->Ok_0.metadata.temperature_bits == agent.temperature_bits,
        document->Ok_0.metadata.model_tier == agent.model_tier,
        document->Ok_0.metadata.max_turns == agent.max_turns,
        document->Ok_0.metadata.permission_mode == agent.permission_mode,
        agent.body@ == trim(document->Ok_0.content@),
{
}

/// The message for a missing front-matter field.
fn missing_field_message(field: &str, path: &str) -> (r: String)
    ensures
        r@ == "missing required field '"@ + field@ + "' in "@ + path@,
{
    let head = concat("missing required field '", field);
    concat3(head.as_str(), "' in ", path)
}

/// Whether an agent's name is `key`.
pub open spec fn name_is(key: Seq<char>) -> spec_fn(ParsedAgent) -> bool {
    |a: ParsedAgent| a.name@ == key
}

/// The agents of `s` whose name is `key`, in order.
pub open spec fn with_name(s: Seq<ParsedAgent>, key: Seq<char>) -> Seq<ParsedAgent> {
    s.filter(name_is(key))
}

/// The names of `s` never decrease.
pub open spec fn sorted_by_name(s: Seq<ParsedAgent>) -> bool {
    forall|i: int, j: int| 0 <= i < j < s.len() ==> !seq_lt(#[trigger] s[j].name@, #[trigger] s[i].name@)
}

/// The first index of `v` whose name sorts after `name`.
fn upper_bound(v: &Vec<ParsedAgent>, name: &String) -> (p: usize)
    requires
        sorted_by_name(v@),
    ensures
        p <= v.len(),
        forall|i: int| 0 <= i < p ==> !seq_lt(name@, #[trigger] v@[i].name@),
        forall|i: int| p <= i < v.len() ==> seq_lt(name@, #[trigger] v@[i].name@),
{
    let mut lo: usize = 0;
    let mut hi: usize = v.len();
    while lo < hi
        invariant
            lo <= hi <= v.len(),
            sorted_by_name(v@),
            forall|i: int| 0 <= i < lo ==> !seq_lt(name@, #[trigger] v@[i].name@),
            forall|i: int| hi <= i < v.len() ==> seq_lt(name@, #[trigger] v@[i].name@),
        decreases hi - lo,
    {
        let mid = lo + (hi - lo) / 2;
        let ghost m = v@[mid as int].name@;
        match crate::text::compare_str(name.as_str(), v[mid].name.as_str()) {
            crate::text::Order::Less => {
                assert forall|i: int| mid <= i < v.len() implies seq_lt(name@, #[trigger] v@[i].name@) by {
                    if i > mid && !seq_lt(name@, v@[i].name@) {
                        assert(!seq_lt(v@[i].name@, m));
                        if v@[i].name@ != m {
                            crate::text::lemma_lt_total(v@[i].name@, m);
                        }
                        if v@[i].name@ != name@ {
                            crate::text::lemma_lt_total(v@[i].name@, name@);
                            crate::text::lemma_lt_transitive(name@, m, v@[i].name@);
                        } else {
                            crate::text::lemma_lt_irreflexive(name@);
                        }
                    }
                }
                hi = mid;
            },
            _ => {
                assert forall|i: int| 0 <= i < mid + 1 implies !seq_lt(name@, #[trigger] v@[i].name@) by {
                    if i < mid && seq_lt(name@, v@[i].name@) {
                        assert(!seq_lt(m, v@[i].name@));
                        if m == name@ {
                        } else {
                            assert(seq_lt(m, name@));
                            crate::text::lemma_lt_transitive(m, name@, v@[i].name@);
                        }
                    }
                    if i == mid {
                        if m == name@ {
                            crate::text::lemma_lt_irreflexive(name@);
                        } else {
                            crate::text::lemma_lt_asymmetric(m, name@);
                        }
                    }
                }
                lo = mid + 1;
            },
        }
    }
    lo
}

/// Filtering by name commutes with inserting an agent whose name sorts after
/// everything before `p` and before everything from `p` on.
proof fn lemma_with_name_insert(s: Seq<ParsedAgent>, p: int, x: ParsedAgent, key: Seq<char>)
    requires
        0 <= p <= s.len(),
        forall|i: int| p <= i < s.len() ==> seq_lt(x.name@, #[trigger] s[i].name@),
    ensures
        with_name(s.insert(p, x), key) == if x.name@ == key {
            with_name(s, key).push(x)
        } else {
            with_name(s, key)
        },
{
    let f = name_is(key);
    let front = s.subrange(0, p);
    let back = s.subrange(p, s.len() as int);
    assert(s =~= front + back);
    assert(s.insert(p, x) =~= front.push(x) + back);
    Seq::filter_distributes_over_add(front, back, f);
    Seq::filter_distributes_over_add(front.push(x), back, f);
    reveal(Seq::filter);
    assert(front.push(x).drop_last() =~= front);
    if x.name@ == key {
        assert forall|i: int| 0 <= i < back.len() implies !f(back[i]) by {
            assert(back[i] == s[p + i]);
            crate::text::lemma_lt_irreflexive(key);
        }
        back.lemma_all_neg_filter_empty(f);
        assert(back.filter(f) =~= Seq::<ParsedAgent>::empty());
        assert(front.filter(f).push(x) + back.filter(f) =~= front.filter(f).push(x));
        assert(front.filter(f) + back.filter(f) =~= front.filter(f));
    }
}

/// The agents ordered by name; agents with equal names keep their order (a
/// stable sort, as `sort_by` on the names performs it).
pub fn sort_by_name(agents: Vec<ParsedAgent>) -> (r: Vec<ParsedAgent>)
    ensures
        r@.len() == agents@.len(),
        sorted_by_name(r@),
        forall|key: Seq<char>| #[trigger] with_name(r@, key) == with_name(agents@, key),
{
    let ghost all = agents@;
    let mut rest = agents;
    let mut out: Vec<ParsedAgent> = Vec::new();
    let mut i: usize = 0;
    while rest.len() > 0
        invariant
            all.len() == i + rest@.len(),
            rest@ == all.skip(i as int),
            out@.len() == i,
            sorted_by_name(out@),
            forall|key: Seq<char>| #[trigger] with_name(out@, key) == with_name(all.take(i as int), key),
        decreases rest@.len(),
    {
        let x = rest.remove(0);
        assert(x == all[i as int]);
        assert(rest@ =~= all.skip(i + 1));
        let p = upper_bound(&out, &x.name);
        let ghost before = out@;
        out.insert(p, x);
        proof {
            assert(all.take(i + 1) =~= all.take(i as int).push(x));
            assert forall|key: Seq<char>| #[trigger] with_name(out@, key) == with_name(all.take(i + 1), key) by {
                lemma_with_name_insert(before, p as int, x, key);
                reveal(Seq::filter);
                assert(all.take(i + 1).drop_last() =~= all.take(i as int));
            }
            before.insert_ensures(p as int, x);
            assert forall|a: int, b: int| 0 <= a < b < out@.len() implies !seq_lt(
                #[trigger] out@[b].name@,
                #[trigger] out@[a].name@,
            ) by {
                if b == p {
                    assert(out@[a] == before[a]);
                } else if a == p {
                    assert(out@[b] == before[b - 1]);
                    crate::text::lemma_lt_asymmetric(x.name@, before[b - 1].name@);
                } else if a < p && b > p {
                    assert(out@[a] == before[a]);
                    assert(out@[b] == before[b - 1]);
                    if seq_lt(before[b - 1].name@, before[a].name@) {
                        assert(seq_lt(x.name@, before[b - 1].name@));
                        crate::text::lemma_lt_transitive(x.name@, before[b - 1].name@, before[a].name@);
                    }
                } else if b < p {
                    assert(out@[a] == before[a] && out@[b] == before[b]);
                } else {
                    assert(out@[a] == before[a - 1] && out@[b] == before[b - 1]);
                }
            }
        }
        i = out.len();
    }
    assert(all.take(i as int) =~= all);
    out
}

/// The index of the last `.` in `s`.
pub open spec fn last_dot(s: Seq<char>) -> Option<int>
    decreases s.len(),
{
    if s.len() == 0 {
        None
    } else if s.last() == '.' {
        Some(s.len() - 1)
    } else {
        last_dot(s.drop_last())
    }
}

/// The extension of a file name, as `Path::extension` gives it: the text after
/// the last `.`, unless there is no `.`, the only `.` starts the name, or the
/// name is `..`.
pub open spec fn extension(file_name: Seq<char>) -> Option<Seq<char>> {
    if file_name == ".."@ {
        None
    } else {
        match last_dot(file_name) {
            Some(k) => if k > 0 {
                Some(file_name.skip(k + 1))
            } else {
                None
            },
            None => None,
        }
    }
}

/// A `.` at `k` with none after it is the last one; no `.` before `k` and none at all when `k` is 0.
proof fn lemma_last_dot_at(s: Seq<char>, k: int)
    requires
        0 <= k <= s.len(),
        forall|j: int| k <= j < s.len() ==> #[trigger] s[j] != '.',
        k > 0 ==> s[k - 1] == '.',
    ensures
        last_dot(s) == if k > 0 { Some(k - 1) } else { None::<int> },
    decreases s.len(),
{
    if s.len() > 0 && s.len() > k {
        assert(s.last() != '.');
        let t = s.drop_last();
        assert forall|j: int| k <= j < t.len() implies #[trigger] t[j] != '.' by {
            assert(t[j] == s[j]);
        }
        if k > 0 {
            assert(t[k - 1] == s[k - 1]);
        }
        lemma_last_dot_at(t, k);
    }
}

/// The extension of a file name (see `extension`).
pub fn extension_of(file_name: &str) -> (r: Option<String>)
    ensures
        crate::output::opt_view(r) == extension(file_name@),
{
    if crate::text::str_eq(file_name, "..") {
        return None;
    }
    let v = crate::text::chars_of(file_name);
    let mut k: usize = v.len();
    while k > 0 && v[k - 1] != '.'
        invariant
            v@ == file_name@,
            k <= v.len(),
            forall|j: int| k <= j < v.len() ==> #[trigger] v@[j] != '.',
        decreases k,
    {
        k = k - 1;
    }
    proof {
        lemma_last_dot_at(file_name@, k as int);
    }
    if k > 1 {
        Some(String::from_str(file_name.substring_char(k, v.len())))
    } else {
        None
    }
}

/// Whether the directory entry named `file_name` is an agent file: its extension is `md`.
pub fn is_agent_file_name(file_name: &str) -> (r: bool)
    ensures
        r == (extension(file_name@) == Some("md"@)),
{
    match extension_of(file_name) {
        Some(ext) => crate::text::str_eq(ext.as_str(), "md"),
        None => false,
    }
}

/// The Rust module name of an agent: its name with `-` turned into `_`.
pub fn to_snake_case(name: &str) -> (r: String)
    ensures
        r@ == hyphens_to_underscores(name@),
{
    replace_hyphens(name)
}

/// The file that holds the Rust module of the agent named `name`.
pub fn agent_file_name(name: &str) -> (r: String)
    ensures
        r@ == hyphens_to_underscores(name@) + ".rs"@,
{
    let stem = to_snake_case(name);
    concat(stem.as_str(), ".rs")
}

/// An agent file of a directory: its path, its text, and what splitting that
/// text into front matter and body gave.
#[derive(Debug)]
pub struct AgentFile {
    pub path: String,
    pub content: String,
    pub document: Result<FrontMatterDocument, String>,
}

/// What is wrong with `f`, if anything (see `file_problem`).
pub open spec fn agent_file_problem(f: AgentFile) -> Option<Seq<char>> {
    file_problem(f.path@, f.content@, f.document)
}

/// Whether `parsed` holds, file by file, the agents that `files` define.
pub open spec fn defines_all(files: Seq<AgentFile>, parsed: Seq<ParsedAgent>) -> bool {
    &&& parsed.len() == files.len()
    &&& forall|i: int| 0 <= i < parsed.len() ==> defines(files[i].document, #[trigger] parsed[i])
}

/// Reads the agents of a directory's agent files and orders them by name. The
/// first file that cannot be read fails the whole directory, with its path in front
/// of its own message.
#[verifier::loop_isolation(false)]
pub fn parse_directory(files: Vec<AgentFile>) -> (r: Result<Vec<ParsedAgent>, String>)
    ensures
        r is Err <==> exists|i: int| 0 <= i < files@.len() && agent_file_problem(#[trigger] files@[i]) is Some,
        r matches Err(m) ==> exists|i: int|
            0 <= i < files@.len() && (forall|j: int| 0 <= j < i ==> agent_file_problem(#[trigger] files@[j]) is None)
                && (agent_file_problem(#[trigger] files@[i]) matches Some(msg) && m@
                == "failed to parse agent file: "@ + files@[i].path@ + ": "@ + msg),
        r matches Ok(v) ==> exists|parsed: Seq<ParsedAgent>| {
            &&& #[trigger] defines_all(files@, parsed)
            &&& v@.len() == parsed.len()
            &&& sorted_by_name(v@)
            &&& forall|key: Seq<char>| #[trigger] with_name(v@, key) == with_name(parsed, key)
        },
{
    let ghost all = files@;
    let mut rest = files;
    let mut parsed: Vec<ParsedAgent> = Vec::new();
    let mut i: usize = 0;
    while rest.len() > 0
        invariant
            all.len() == i + rest@.len(),
            rest@ == all.skip(i as int),
            parsed@.len() == i,
            forall|j: int| 0 <= j < i ==> agent_file_problem(#[trigger] all[j]) is None,
            forall|j: int| 0 <= j < i ==> defines(all[j].document, #[trigger] parsed@[j]),
        decreases rest@.len(),
    {
        let file = rest.remove(0);
        assert(file == all[i as int]);
        assert(rest@ =~= all.skip(i + 1));
        let ghost this_file = file;
        let AgentFile { path, content, document } = file;
        assert(path == this_file.path && content == this_file.content && document == this_file.document);
        match parse_file(path.as_str(), content.as_str(), document) {
            Ok(agent) => {
                let ghost before = parsed@;
                parsed.push(agent);
                assert forall|j: int| 0 <= j < i + 1 implies defines(all[j].document, #[trigger] parsed@[j]) by {
                    if j < i {
                        assert(parsed@[j] == before[j]);
                    }
                }
            },
            Err(msg) => {
                let head = concat3("failed to parse agent file: ", path.as_str(), ": ");
                let m = concat(head.as_str(), msg.as_str());
                assert(agent_file_problem(all[i as int]) == Some(msg@));
                return Err(m);
            },
        }
        i = parsed.len();
    }
    assert(forall|j: int| 0 <= j < all.len() ==> agent_file_problem(#[trigger] all[j]) is None);
    let ghost parsed_seq = parsed@;
    let sorted = sort_by_name(parsed);
    assert(defines_all(all, parsed_seq));
    Ok(sorted)
}

} // verus!
