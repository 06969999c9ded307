//! Lookup of agents by executor name.
use vstd::prelude::*;

use crate::error::BmadError;
use crate::executor::{input_problem, BmadExecutor, TaskInput, TaskPayload};
use crate::verification::VerificationResult;
use crate::generated::{
    all_agent_entries, all_agents, is_roster_entry, lemma_roster_names_distinct,
    lemma_roster_well_formed, roster,
};
use crate::metadata::is_well_formed;
use crate::metadata::{AgentMetadata, AgentMetadataView};
use crate::output::AgentOutput;
use crate::text::{compare_str, has_prefix, is_blank, is_blank_str, lemma_lt_irreflexive, lemma_lt_transitive, seq_lt, Order};

verus! {

broadcast use vstd::seq_lib::group_to_multiset_ensures;

/// The executor names of `s` strictly increase: `s` is sorted and no name occurs twice.
pub open spec fn names_strictly_sorted(s: Seq<AgentMetadataView>) -> bool {
    forall|i: int, j: int|
        0 <= i < j < s.len() ==> seq_lt(#[trigger] s[i].executor_name, #[trigger] s[j].executor_name)
}

/// The agent of `agents` whose executor name is `name`, if there is one.
pub open spec fn lookup(agents: Seq<AgentMetadataView>, name: Seq<char>) -> Option<AgentMetadataView> {
    if exists|i: int| 0 <= i < agents.len() && (#[trigger] agents[i]).executor_name == name {
        Some(agents[choose|i: int| 0 <= i < agents.len() && (#[trigger] agents[i]).executor_name == name])
    } else {
        None
    }
}

/// No two agents of `s` share an executor name.
pub open spec fn names_distinct(s: Seq<AgentMetadataView>) -> bool {
    forall|i: int, j: int|
        0 <= i < s.len() && 0 <= j < s.len() && i != j ==> #[trigger] s[i].executor_name
            != #[trigger] s[j].executor_name
}

/// The text of an optional agent.
pub open spec fn opt_meta_view(o: Option<AgentMetadata>) -> Option<AgentMetadataView> {
    match o {
        Some(m) => Some(m@),
        None => None,
    }
}

/// Strictly increasing names are distinct names.
pub proof fn lemma_sorted_names_distinct(s: Seq<AgentMetadataView>)
    requires
        names_strictly_sorted(s),
    ensures
        names_distinct(s),
{
    assert forall|i: int, j: int|
        0 <= i < s.len() && 0 <= j < s.len() && i != j implies #[trigger] s[i].executor_name
        != #[trigger] s[j].executor_name by {
        if i < j {
            assert(seq_lt(s[i].executor_name, s[j].executor_name));
        } else {
            assert(seq_lt(s[j].executor_name, s[i].executor_name));
        }
        lemma_lt_irreflexive(s[i].executor_name);
    }
}

/// Where names are distinct, `lookup` finds the agent at the index that carries the name.
pub proof fn lemma_lookup_at(s: Seq<AgentMetadataView>, k: int)
    requires
        names_distinct(s),
        0 <= k < s.len(),
    ensures
        lookup(s, s[k].executor_name) == Some(s[k]),
{
    let n = s[k].executor_name;
    assert(s[k].executor_name == n);
    let c = choose|i: int| 0 <= i < s.len() && (#[trigger] s[i]).executor_name == n;
    assert(c == k);
}

/// Two sequences with the same agents, none sharing a name, answer every lookup alike.
pub proof fn lemma_lookup_same_agents(s1: Seq<AgentMetadataView>, s2: Seq<AgentMetadataView>, n: Seq<char>)
    requires
        s1.to_multiset() == s2.to_multiset(),
        names_distinct(s1),
        names_distinct(s2),
    ensures
        lookup(s1, n) == lookup(s2, n),
{
    if exists|i: int| 0 <= i < s1.len() && (#[trigger] s1[i]).executor_name == n {
        let i = choose|i: int| 0 <= i < s1.len() && (#[trigger] s1[i]).executor_name == n;
        assert(s1.contains(s1[i]));
        assert(s1.to_multiset().count(s1[i]) > 0);
        assert(s2.to_multiset().count(s1[i]) > 0);
        assert(s2.contains(s1[i]));
        let j = choose|j: int| 0 <= j < s2.len() && s2[j] == s1[i];
        lemma_lookup_at(s1, i);
        lemma_lookup_at(s2, j);
    } else if exists|j: int| 0 <= j < s2.len() && (#[trigger] s2[j]).executor_name == n {
        let j = choose|j: int| 0 <= j < s2.len() && (#[trigger] s2[j]).executor_name == n;
        assert(s2.contains(s2[j]));
        assert(s2.to_multiset().count(s2[j]) > 0);
        assert(s1.to_multiset().count(s2[j]) > 0);
        assert(s1.contains(s2[j]));
        let i = choose|i: int| 0 <= i < s1.len() && s1[i] == s2[j];
        assert(s1[i].executor_name == n);
    }
}

/// The text of each agent of `s`.
pub open spec fn views(s: Seq<AgentMetadata>) -> Seq<AgentMetadataView> {
    s.map_values(|m: AgentMetadata| m@)
}

/// The agents, sorted by executor name, that a registry serves.
pub struct AgentRegistry {
    sorted: Vec<AgentMetadata>,
}

impl View for AgentRegistry {
    type V = Seq<AgentMetadataView>;

    closed spec fn view(&self) -> Seq<AgentMetadataView> {
        views(self.sorted@)
    }
}

/// Inserting `x` at `p` adds `x` to the multiset of a sequence.
proof fn lemma_insert_to_multiset<A>(s: Seq<A>, p: int, x: A)
    requires
        0 <= p <= s.len(),
    ensures
        s.insert(p, x).to_multiset() =~= s.to_multiset().insert(x),
{
    let t = s.insert(p, x);
    assert(t.remove(p) =~= s);
    assert(t[p] == x);
    assert(t.to_multiset().remove(x) =~= s.to_multiset());
    assert(t.contains(x));
}

/// Inserting `m` at `p` in a vector inserts its view at `p`.
proof fn lemma_insert_views(s: Seq<AgentMetadata>, p: int, m: AgentMetadata)
    requires
        0 <= p <= s.len(),
    ensures
        views(s.insert(p, m)) =~= views(s).insert(p, m@),
{
    s.insert_ensures(p, m);
    views(s).insert_ensures(p, m@);
}

/// The first index of `v` whose executor name does not sort before `name`.
fn lower_bound(v: &Vec<AgentMetadata>, name: &str) -> (p: usize)
    requires
        names_strictly_sorted(views(v@)),
    ensures
        p <= v.len(),
        forall|i: int| 0 <= i < p ==> seq_lt(#[trigger] v@[i].executor_name@, name@),
        forall|i: int| p <= i < v.len() ==> !seq_lt(#[trigger] v@[i].executor_name@, name@),
{
    let mut lo: usize = 0;
    let mut hi: usize = v.len();
    while lo < hi
        invariant
            lo <= hi <= v.len(),
            names_strictly_sorted(views(v@)),
            forall|i: int| 0 <= i < lo ==> seq_lt(#[trigger] v@[i].executor_name@, name@),
            forall|i: int| hi <= i < v.len() ==> !seq_lt(#[trigger] v@[i].executor_name@, name@),
        decreases hi - lo,
    {
        let mid = lo + (hi - lo) / 2;
        let ghost m = v@[mid as int].executor_name@;
        match compare_str(v[mid].executor_name, name) {
            Order::Less => {
                assert forall|i: int| 0 <= i < mid + 1 implies seq_lt(
                    #[trigger] v@[i].executor_name@,
                    name@,
                ) by {
                    if i < mid {
                        assert(views(v@)[i].executor_name == v@[i].executor_name@);
                        assert(views(v@)[mid as int].executor_name == m);
                        lemma_lt_transitive(v@[i].executor_name@, m, name@);
                    }
                }
                lo = mid + 1;
            },
            _ => {
                assert forall|i: int| mid <= i < v.len() implies !seq_lt(
                    #[trigger] v@[i].executor_name@,
                    name@,
                ) by {
                    if i > mid {
                        assert(views(v@)[i].executor_name == v@[i].executor_name@);
                        assert(views(v@)[mid as int].executor_name == m);
                        if seq_lt(v@[i].executor_name@, name@) {
                            lemma_lt_transitive(m, v@[i].executor_name@, name@);
                            if m == name@ {
                                lemma_lt_irreflexive(m);
                            }
                            crate::text::lemma_lt_asymmetric(m, name@);
                        }
                    }
                }
                hi = mid;
            },
        }
    }
    lo
}

impl AgentRegistry {
    #[verifier::type_invariant]
    spec fn sorted_by_name(self) -> bool {
        names_strictly_sorted(views(self.sorted@))
    }

    /// A registry holding every agent of the roster, sorted by executor name.
    pub fn new() -> (r: AgentRegistry)
        ensures
            names_strictly_sorted(r@),
            r@.to_multiset() == roster().to_multiset(),
    {
        let all = all_agents();
        let ghost table = views(all@);
        assert(table =~= roster());
        proof {
            lemma_roster_names_distinct();
        }
        let mut sorted: Vec<AgentMetadata> = Vec::new();
        let mut i: usize = 0;
        while i < all.len()
            invariant
                i <= all.len(),
                table == views(all@),
                table == roster(),
                forall|a: int, b: int|
                    0 <= a < table.len() && 0 <= b < table.len() && a != b
                        ==> #[trigger] table[a].executor_name != #[trigger] table[b].executor_name,
                names_strictly_sorted(views(sorted@)),
                views(sorted@).to_multiset() == table.take(i as int).to_multiset(),
            decreases all.len() - i,
        {
            let m = all[i];
            let p = lower_bound(&sorted, m.executor_name);
            let ghost old_sorted = sorted@;
            let ghost old_views = views(sorted@);
            proof {
                if p < sorted.len() {
                    let x = old_views[p as int];
                    assert(x.executor_name == sorted@[p as int].executor_name@);
                    if x.executor_name == m.executor_name@ {
                        // every agent placed so far comes from an earlier roster entry,
                        // and no earlier entry shares the name of entry `i`
                        assert(old_views.contains(x));
                        assert(table.take(i as int).to_multiset().count(x) > 0);
                        assert(table.take(i as int).contains(x));
                        let k = choose|k: int| 0 <= k < i && table.take(i as int)[k] == x;
                        assert(table[k] == x);
                        assert(table[i as int] == m@);
                        assert(table[k].executor_name != table[i as int].executor_name);
                    }
                    crate::text::lemma_lt_total(m.executor_name@, x.executor_name);
                    assert(seq_lt(m.executor_name@, x.executor_name));
                }
            }
            sorted.insert(p, m);
            proof {
                lemma_insert_views(old_sorted, p as int, m);
                lemma_insert_to_multiset(old_views, p as int, m@);
                assert(table.take(i + 1) =~= table.take(i as int).push(m@));
                let nv = views(sorted@);
                assert forall|j: int| p < j < nv.len() implies seq_lt(
                    m.executor_name@,
                    #[trigger] nv[j].executor_name,
                ) by {
                    assert(nv[j] == old_views[j - 1]);
                    if j - 1 > p {
                        assert(seq_lt(old_views[p as int].executor_name, old_views[j - 1].executor_name));
                        lemma_lt_transitive(
                            m.executor_name@,
                            old_views[p as int].executor_name,
                            nv[j].executor_name,
                        );
                    }
                }
                assert forall|j: int| 0 <= j < p implies seq_lt(
                    #[trigger] nv[j].executor_name,
                    m.executor_name@,
                ) by {
                    assert(nv[j] == old_views[j]);
                    assert(old_views[j].executor_name == old_sorted[j].executor_name@);
                }
                assert forall|a: int, b: int| 0 <= a < b < nv.len() implies seq_lt(
                    #[trigger] nv[a].executor_name,
                    #[trigger] nv[b].executor_name,
                ) by {
                    assert(nv[p as int] == m@);
                    if a < p && b > p {
                        lemma_lt_transitive(nv[a].executor_name, m.executor_name@, nv[b].executor_name);
                    } else if a > p {
                        assert(nv[a] == old_views[a - 1] && nv[b] == old_views[b - 1]);
                    } else if b < p {
                        assert(nv[a] == old_views[a] && nv[b] == old_views[b]);
                    }
                }
            }
            i = i + 1;
        }
        assert(table.take(i as int) =~= table);
        AgentRegistry { sorted }
    }

    /// The agent registered under `executor_name`; names are compared exactly,
    /// so the lookup is case-sensitive.
    pub fn find_agent(&self, executor_name: &str) -> (r: Option<AgentMetadata>)
        ensures
            opt_meta_view(r) == lookup(self@, executor_name@),
    {
        proof {
            use_type_invariant(self);
            lemma_sorted_names_distinct(self@);
        }
        let p = lower_bound(&self.sorted, executor_name);
        if p < self.sorted.len() && crate::text::str_eq(self.sorted[p].executor_name, executor_name) {
            proof {
                assert(self@[p as int] == self.sorted@[p as int]@);
                lemma_lookup_at(self@, p as int);
            }
            Some(self.sorted[p])
        } else {
            proof {
                assert forall|i: int| 0 <= i < self@.len() implies (#[trigger] self@[i]).executor_name
                    != executor_name@ by {
                    assert(self@[i].executor_name == self.sorted@[i].executor_name@);
                    if i < p {
                        lemma_lt_irreflexive(executor_name@);
                    } else if i > p {
                        assert(seq_lt(self@[p as int].executor_name, self@[i].executor_name));
                        assert(self@[p as int].executor_name == self.sorted@[p as int].executor_name@);
                    }
                }
            }
            None
        }
    }

    /// Every registered agent, sorted by executor name.
    pub fn list_agents(&self) -> (r: &[AgentMetadata])
        ensures
            views(r@) == self@,
    {
        self.sorted.as_slice()
    }

    /// The number of registered agents.
    pub fn count(&self) -> (r: usize)
        ensures
            r == self@.len(),
    {
        self.sorted.len()
    }

    /// Answers `input` with the agent registered under `executor_name`: its
    /// description as system prompt and `input` as user context.
    pub fn dispatch(&self, executor_name: &str, input: &str) -> (r: Result<AgentOutput, BmadError>)
        ensures
            is_blank(executor_name@) ==> (r matches Err(BmadError::InvalidInput(msg))
                && msg@ == "executor name cannot be empty"@),
            !is_blank(executor_name@) ==> match lookup(self@, executor_name@) {
                Some(meta) => (r matches Ok(out) && out.system_prompt@ == meta.description
                    && out.user_context@ == input@ && out.suggested_params is None),
                None => (r matches Err(BmadError::AgentNotFound(name)) && name@ == executor_name@),
            },
    {
        if is_blank_str(executor_name) {
            return Err(BmadError::InvalidInput(String::from_str("executor name cannot be empty")));
        }
        match self.find_agent(executor_name) {
            Some(meta) => Ok(
                AgentOutput {
                    system_prompt: String::from_str(meta.description),
                    user_context: String::from_str(input),
                    suggested_params: None,
                },
            ),
            None => Err(BmadError::AgentNotFound(String::from_str(executor_name))),
        }
    }
}

impl Default for AgentRegistry {
    fn default() -> (r: Self)
        ensures
            names_strictly_sorted(r@),
            r@.to_multiset() == roster().to_multiset(),
    {
        Self::new()
    }
}

/// The registry of the whole roster.
fn global_registry() -> (r: AgentRegistry)
    ensures
        names_strictly_sorted(r@),
        r@.to_multiset() == roster().to_multiset(),
{
    AgentRegistry::new()
}

/// Every agent of the roster, sorted by executor name.
pub fn list_agents() -> (v: Vec<AgentMetadata>)
    ensures
        names_strictly_sorted(views(v@)),
        views(v@).to_multiset() == roster().to_multiset(),
{
    let registry = global_registry();
    vstd::slice::slice_to_vec(registry.list_agents())
}

/// The agent of the roster whose executor name is `executor_name`.
pub fn find_agent(executor_name: &str) -> (r: Option<AgentMetadata>)
    ensures
        opt_meta_view(r) == lookup(roster(), executor_name@),
{
    let registry = global_registry();
    proof {
        lemma_roster_names_distinct();
        lemma_sorted_names_distinct(registry@);
        lemma_lookup_same_agents(registry@, roster(), executor_name@);
    }
    registry.find_agent(executor_name)
}

/// The text every agent is probed with.
pub open spec fn probe_text() -> Seq<char> {
    "ping"@
}

/// Probes every agent of the roster, in roster order, with the text "ping": an
/// agent passes when its executor accepts the probe, and otherwise carries the
/// message of the refusal.
pub fn verify_all_agents() -> (r: Vec<VerificationResult>)
    ensures
        r@.len() == roster().len(),
        forall|i: int|
            0 <= i < r@.len() ==> {
                &&& (#[trigger] r@[i]).executor_name@ == roster()[i].executor_name
                &&& r@[i].passed == (input_problem(probe_text()) is None)
                &&& r@[i].passed <==> r@[i].failure_reason is None
                &&& r@[i].failure_reason matches Some(m) ==> input_problem(probe_text()) == Some(m@)
            },
{
    let entries = all_agent_entries();
    let mut results: Vec<VerificationResult> = Vec::new();
    let mut i: usize = 0;
    while i < entries.len()
        invariant
            i <= entries@.len(),
            entries@.len() == roster().len(),
            forall|k: int| 0 <= k < entries@.len() ==> is_roster_entry(#[trigger] entries@[k], k),
            results@.len() == i,
            forall|k: int|
                0 <= k < i ==> {
                    &&& (#[trigger] results@[k]).executor_name@ == roster()[k].executor_name
                    &&& results@[k].passed == (input_problem(probe_text()) is None)
                    &&& results@[k].passed <==> results@[k].failure_reason is None
                    &&& results@[k].failure_reason matches Some(m) ==> input_problem(probe_text())
                        == Some(m@)
                },
        decreases entries@.len() - i,
    {
        let meta = entries[i].0;
        let params = match &entries[i].2 {
            Some(p) => Some(p.clone()),
            None => None,
        };
        let config = match &entries[i].3 {
            Some(c) => Some(c.clone()),
            None => None,
        };
        let executor = BmadExecutor::for_agent(meta, entries[i].1, params, config);
        let task = TaskInput {
            task_id: String::from_str("health-check"),
            description: String::from_str("ping"),
            input: Some(TaskPayload::Text(String::from_str("ping"))),
        };
        let result = match executor.execute(&task) {
            Ok(_) => VerificationResult {
                executor_name: String::from_str(meta.executor_name),
                passed: true,
                failure_reason: None,
            },
            Err(e) => VerificationResult {
                executor_name: String::from_str(meta.executor_name),
                passed: false,
                failure_reason: Some(e.message),
            },
        };
        assert(entries@[i as int].0@ == roster()[i as int]);
        let ghost before = results@;
        results.push(result);
        assert forall|k: int| 0 <= k < i + 1 implies (#[trigger] results@[k]).executor_name@
            == roster()[k].executor_name by {
            if k < i {
                assert(results@[k] == before[k]);
            }
        }
        i = i + 1;
    }
    results
}

/// The text "ping" is an acceptable user context, so every agent passes its probe.
pub proof fn lemma_probe_accepted()
    ensures
        input_problem(probe_text()) is None,
{
    reveal_strlit("ping");
    vstd::utf8::is_ascii_chars_encode_utf8(probe_text());
    assert(!is_blank(probe_text())) by {
        assert(!crate::text::is_whitespace_char(probe_text()[0]));
    }
}

/// A listing that holds the agents of the roster in strictly increasing name
/// order holds each of them once, every one well formed, and looking a name up
/// in it gives what looking it up in the roster gives.
pub proof fn lemma_listing_matches_roster(listed: Seq<AgentMetadataView>)
    requires
        names_strictly_sorted(listed),
        listed.to_multiset() == roster().to_multiset(),
    ensures
        listed.len() == roster().len(),
        forall|i: int| 0 <= i < listed.len() ==> is_well_formed(#[trigger] listed[i]),
        forall|n: Seq<char>| #[trigger] lookup(listed, n) == lookup(roster(), n),
        forall|i: int|
            0 <= i < listed.len() ==> lookup(roster(), (#[trigger] listed[i]).executor_name) == Some(
                listed[i],
            ),
{
    lemma_roster_names_distinct();
    lemma_roster_well_formed();
    lemma_sorted_names_distinct(listed);
    assert(listed.len() == listed.to_multiset().len());
    assert(roster().len() == roster().to_multiset().len());
    assert forall|i: int| 0 <= i < listed.len() implies is_well_formed(#[trigger] listed[i]) by {
        assert(listed.contains(listed[i]));
        assert(listed.to_multiset().count(listed[i]) > 0);
        assert(roster().to_multiset().count(listed[i]) > 0);
        assert(roster().contains(listed[i]));
    }
    assert forall|n: Seq<char>| #[trigger] lookup(listed, n) == lookup(roster(), n) by {
        lemma_lookup_same_agents(listed, roster(), n);
    }
    assert forall|i: int| 0 <= i < listed.len() implies lookup(
        roster(),
        (#[trigger] listed[i]).executor_name,
    ) == Some(listed[i]) by {
        lemma_lookup_at(listed, i);
        lemma_lookup_same_agents(listed, roster(), listed[i].executor_name);
    }
}

/// Sequences with the same elements keep the same elements under a map.
proof fn lemma_map_values_to_multiset<A, B>(s1: Seq<A>, s2: Seq<A>, f: spec_fn(A) -> B)
    requires
        s1.to_multiset() == s2.to_multiset(),
    ensures
        s1.map_values(f).to_multiset() == s2.map_values(f).to_multiset(),
    decreases s1.len(),
{
    if s1.len() == 0 {
        assert(s2.len() == s2.to_multiset().len());
        assert(s1.map_values(f) =~= Seq::<B>::empty());
        assert(s2.map_values(f) =~= Seq::<B>::empty());
    } else {
        let k = s1.len() - 1;
        let x = s1[k];
        assert(s1.contains(x));
        assert(s2.to_multiset().count(x) > 0);
        assert(s2.contains(x));
        let j = choose|j: int| 0 <= j < s2.len() && s2[j] == x;
        let t1 = s1.remove(k);
        let t2 = s2.remove(j);
        assert(t1.to_multiset() =~= t2.to_multiset());
        lemma_map_values_to_multiset(t1, t2, f);
        let m1 = s1.map_values(f);
        let m2 = s2.map_values(f);
        assert(m1.remove(k) =~= t1.map_values(f));
        assert(m2.remove(j) =~= t2.map_values(f));
        assert(m1[k] == f(x));
        assert(m2[j] == f(x));
        assert(m1.to_multiset().remove(f(x)) == m2.to_multiset().remove(f(x)));
        assert(m1.contains(f(x)));
        assert(m2.contains(f(x)));
        assert(m1.to_multiset() =~= m1.to_multiset().remove(f(x)).insert(f(x)));
        assert(m2.to_multiset() =~= m2.to_multiset().remove(f(x)).insert(f(x)));
    }
}

/// The executor names of the agents of `s`, in order.
pub open spec fn executor_names(s: Seq<AgentMetadataView>) -> Seq<Seq<char>> {
    s.map_values(|m: AgentMetadataView| m.executor_name)
}

/// The executor names of the probe results `r`, in order.
pub open spec fn result_names(r: Seq<VerificationResult>) -> Seq<Seq<char>> {
    r.map_values(|v: VerificationResult| v.executor_name@)
}

/// The probe answers for exactly the agents that the listing holds: one result
/// per listed agent, the results' executor names a permutation of the listed
/// agents' names, and each name in the `bmad/` namespace. (The requirements are
/// what `verify_all_agents` and `list_agents` ensure of their results.)
pub proof fn lemma_probe_covers_listing(results: Seq<VerificationResult>, listed: Seq<AgentMetadataView>)
    requires
        results.len() == roster().len(),
        forall|i: int|
            0 <= i < results.len() ==> (#[trigger] results[i]).executor_name@ == roster()[i].executor_name,
        listed.to_multiset() == roster().to_multiset(),
    ensures
        results.len() == listed.len(),
        result_names(results).to_multiset() == executor_names(listed).to_multiset(),
        forall|i: int|
            0 <= i < results.len() ==> has_prefix((#[trigger] results[i]).executor_name@, "bmad/"@),
{
    lemma_roster_well_formed();
    assert(listed.len() == listed.to_multiset().len());
    assert(roster().len() == roster().to_multiset().len());
    assert(result_names(results) =~= executor_names(roster()));
    lemma_map_values_to_multiset(roster(), listed, |m: AgentMetadataView| m.executor_name);
    assert forall|i: int| 0 <= i < results.len() implies has_prefix(
        (#[trigger] results[i]).executor_name@,
        "bmad/"@,
    ) by {
        assert(is_well_formed(roster()[i]));
    }
}

} // verus!
