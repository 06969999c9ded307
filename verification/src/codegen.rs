//! The Rust source that the converter writes for the agents it read.
use vstd::prelude::*;

use crate::converter::{agent_file_name, extension, extension_of, ParsedAgent};
use crate::text::{hyphens_to_underscores, join, occurs_at, push_char, replace_hyphens};

verus! {

/// `c` as it stands inside a Rust string literal.
pub open spec fn escape_char(c: char) -> Seq<char> {
    if c == '\\' {
        seq!['\\', '\\']
    } else if c == '"' {
        seq!['\\', '"']
    } else {
        seq![c]
    }
}

/// `s` as it stands inside a Rust string literal.
pub open spec fn escape(s: Seq<char>) -> Seq<char>
    decreases s.len(),
{
    if s.len() == 0 {
        Seq::empty()
    } else {
        escape(s.drop_last()) + escape_char(s.last())
    }
}

/// A Rust string literal holding `s`.
pub open spec fn string_literal(s: Seq<char>) -> Seq<char> {
    seq!['"'] + escape(s) + seq!['"']
}

/// The text that the inside `s` of a Rust string literal stands for: `\\` followed
/// by a character stands for that character, any other character for itself.
pub open spec fn unescape(s: Seq<char>) -> Seq<char>
    decreases s.len(),
{
    if s.len() == 0 {
        Seq::empty()
    } else if s[0] == '\\' && s.len() >= 2 {
        seq![s[1]] + unescape(s.skip(2))
    } else {
        seq![s[0]] + unescape(s.skip(1))
    }
}

/// Escaping two texts one after the other escapes their concatenation.
proof fn lemma_escape_add(a: Seq<char>, b: Seq<char>)
    ensures
        escape(a + b) == escape(a) + escape(b),
    decreases b.len(),
{
    if b.len() == 0 {
        assert(a + b =~= a);
        assert(escape(a) + escape(b) =~= escape(a));
    } else {
        assert((a + b).drop_last() =~= a + b.drop_last());
        assert((a + b).last() == b.last());
        lemma_escape_add(a, b.drop_last());
        assert(escape(a + b) =~= escape(a) + escape(b));
    }
}

/// A string literal stands for the very text it was made from: reading the
/// inside of `string_literal(s)` gives `s` back, so no two texts share a literal.
pub proof fn lemma_string_literal_decodes(s: Seq<char>)
    ensures
        string_literal(s).len() >= 2,
        string_literal(s)[0] == '"',
        string_literal(s).last() == '"',
        unescape(string_literal(s).subrange(1, string_literal(s).len() - 1)) == s,
    decreases s.len(),
{
    let lit = string_literal(s);
    assert(lit.subrange(1, lit.len() - 1) =~= escape(s));
    if s.len() == 0 {
        assert(escape(s) =~= Seq::<char>::empty());
        assert(unescape(escape(s)) =~= s);
    } else {
        let c = s[0];
        let t = s.skip(1);
        assert(s =~= seq![c] + t);
        lemma_escape_add(seq![c], t);
        let none = Seq::<char>::empty();
        assert(escape(none) =~= none);
        assert(seq![c].drop_last() =~= none);
        assert(seq![c].last() == c);
        assert(escape(seq![c]) == escape(none) + escape_char(c));
        assert(escape(seq![c]) =~= escape_char(c));
        lemma_string_literal_decodes(t);
        assert(string_literal(t).subrange(1, string_literal(t).len() - 1) =~= escape(t));
        let u = escape_char(c) + escape(t);
        assert(escape(s) == u);
        if c == '\\' || c == '"' {
            assert(u.skip(2) =~= escape(t));
            assert(unescape(u) =~= seq![c] + unescape(escape(t)));
        } else {
            assert(u.skip(1) =~= escape(t));
            assert(unescape(u) =~= seq![c] + unescape(escape(t)));
        }
        assert(unescape(escape(s)) =~= s);
    }
}

/// The decimal digit `d`.
pub open spec fn digit(d: int) -> char {
    if d == 0 { '0' } else if d == 1 { '1' } else if d == 2 { '2' } else if d == 3 { '3' }
    else if d == 4 { '4' } else if d == 5 { '5' } else if d == 6 { '6' } else if d == 7 { '7' }
    else if d == 8 { '8' } else { '9' }
}

/// `n` in decimal.
pub open spec fn decimal(n: nat) -> Seq<char>
    decreases n,
{
    if n < 10 {
        seq![digit(n as int)]
    } else {
        decimal(n / 10) + seq![digit((n % 10) as int)]
    }
}

/// The pieces of `s`, one after the other.
pub open spec fn flatten(s: Seq<Seq<char>>) -> Seq<char>
    decreases s.len(),
{
    if s.len() == 0 {
        Seq::empty()
    } else {
        flatten(s.drop_last()) + s.last()
    }
}

/// Appends `text` to `out` as the inside of a Rust string literal.
fn push_escaped(out: &mut String, text: &str)
    ensures
        final(out)@ == old(out)@ + escape(text@),
{
    let v = crate::text::chars_of(text);
    let ghost start = out@;
    let mut i: usize = 0;
    while i < v.len()
        invariant
            v@ == text@,
            i <= v.len(),
            out@ == start + escape(v@.take(i as int)),
        decreases v.len() - i,
    {
        let c = v[i];
        let ghost prev = out@;
        if c == '\\' {
            push_char(out, '\\');
            push_char(out, '\\');
        } else if c == '"' {
            push_char(out, '\\');
            push_char(out, '"');
        } else {
            push_char(out, c);
        }
        assert(v@.take(i + 1).drop_last() =~= v@.take(i as int));
        assert(out@ =~= prev + escape_char(c));
        i = i + 1;
    }
    assert(v@.take(i as int) =~= v@);
}

/// Appends a Rust string literal holding `text` to `out`.
fn push_string_literal(out: &mut String, text: &str)
    ensures
        final(out)@ == old(out)@ + string_literal(text@),
{
    let ghost start = out@;
    push_char(out, '"');
    push_escaped(out, text);
    push_char(out, '"');
    assert(out@ =~= start + string_literal(text@));
}

/// Appends `n` in decimal to `out`.
fn push_decimal(out: &mut String, n: u32)
    ensures
        final(out)@ == old(out)@ + decimal(n as nat),
    decreases n,
{
    let ghost start = out@;
    if n >= 10 {
        push_decimal(out, n / 10);
    }
    let d = n % 10;
    let c = if d == 0 { '0' } else if d == 1 { '1' } else if d == 2 { '2' } else if d == 3 { '3' }
        else if d == 4 { '4' } else if d == 5 { '5' } else if d == 6 { '6' } else if d == 7 { '7' }
        else if d == 8 { '8' } else { '9' };
    push_char(out, c);
    assert(out@ =~= start + decimal(n as nat));
}

/// The Rust expression for an agent's suggested generation parameters.
pub open spec fn params_expr(temperature_bits: Option<u32>) -> Seq<char> {
    match temperature_bits {
        None => "None"@,
        Some(bits) => "Some(GenerationParams { model: None, temperature: Some(f32::from_bits("@
            + decimal(bits as nat) + ")), max_tokens: None })"@,
    }
}

/// The Rust expression for an optional string.
pub open spec fn opt_string_expr(o: Option<String>) -> Seq<char> {
    match o {
        None => "None"@,
        Some(t) => "Some("@ + string_literal(t@) + ".to_string())"@,
    }
}

/// The Rust expression for an optional number.
pub open spec fn opt_number_expr(o: Option<u32>) -> Seq<char> {
    match o {
        None => "None"@,
        Some(n) => "Some("@ + decimal(n as nat) + ")"@,
    }
}

/// The Rust expression for an agent's suggested runtime settings: none when the
/// agent file gives none of them.
pub open spec fn config_expr(agent: ParsedAgent) -> Seq<char> {
    if agent.model_tier is None && agent.max_turns is None && agent.permission_mode is None {
        "None"@
    } else {
        "Some(SuggestedConfig { model_tier: "@ + opt_string_expr(agent.model_tier)
            + ", max_turns: "@ + opt_number_expr(agent.max_turns)
            + ", permission_mode: "@ + opt_string_expr(agent.permission_mode) + " })"@
    }
}

/// Appends the Rust expression for an optional string to `out`.
fn push_opt_string_expr(out: &mut String, o: &Option<String>)
    ensures
        final(out)@ == old(out)@ + opt_string_expr(*o),
{
    let ghost start = out@;
    match o {
        None => out.append("None"),
        Some(t) => {
            out.append("Some(");
            push_string_literal(out, t.as_str());
            out.append(".to_string())");
        },
    }
    assert(out@ =~= start + opt_string_expr(*o));
}

/// Appends the Rust expression for an optional number to `out`.
fn push_opt_number_expr(out: &mut String, o: Option<u32>)
    ensures
        final(out)@ == old(out)@ + opt_number_expr(o),
{
    let ghost start = out@;
    match o {
        None => out.append("None"),
        Some(n) => {
            out.append("Some(");
            push_decimal(out, n);
            out.append(")");
        },
    }
    assert(out@ =~= start + opt_number_expr(o));
}

/// Appends the Rust expression for an agent's suggested runtime settings to `out`.
fn push_config_expr(out: &mut String, agent: &ParsedAgent)
    ensures
        final(out)@ == old(out)@ + config_expr(*agent),
{
    let ghost start = out@;
    if agent.model_tier.is_none() && agent.max_turns.is_none() && agent.permission_mode.is_none() {
        out.append("None");
    } else {
        out.append("Some(SuggestedConfig { model_tier: ");
        push_opt_string_expr(out, &agent.model_tier);
        out.append(", max_turns: ");
        push_opt_number_expr(out, agent.max_turns);
        out.append(", permission_mode: ");
        push_opt_string_expr(out, &agent.permission_mode);
        out.append(" })");
    }
    assert(out@ =~= start + config_expr(*agent));
}

/// The capability list of an agent as the items of a Rust slice literal.
pub open spec fn capability_items(caps: Seq<String>) -> Seq<char> {
    join(caps.map_values(|c: String| string_literal(c@)), ", "@)
}

/// The Rust module for `agent`, stamped with `timestamp`: its system prompt, its
/// metadata and its suggestions.
pub open spec fn agent_file_text(agent: ParsedAgent, timestamp: Seq<char>) -> Seq<char> {
    "// "@ + agent.display_name@ + " (agents/"@ + agent.name@ + ".md, "@ + timestamp + ")\n"@
        + "use bmad_types::{AgentMetadata, GenerationParams, SuggestedConfig};\n\n"@
        + "pub const SYSTEM_PROMPT: &str = "@ + string_literal(agent.body@) + ";\n\n"@
        + "pub fn metadata() -> AgentMetadata {\n    AgentMetadata {\n        name: "@
        + string_literal(agent.name@) + ",\n        display_name: "@
        + string_literal(agent.display_name@) + ",\n        description: "@
        + string_literal(agent.description@) + ",\n        executor_name: "@
        + string_literal(agent.executor_name@) + ",\n        capabilities: &["@
        + capability_items(agent.capabilities@) + "],\n    }\n}\n\n"@
        + "pub fn suggested_params() -> Option<GenerationParams> {\n    "@
        + params_expr(agent.temperature_bits) + "\n}\n\n"@
        + "pub fn suggested_config() -> Option<SuggestedConfig> {\n    "@
        + config_expr(agent) + "\n}\n"@
}

/// A line of a struct literal that sets field `key` to the string literal of `value`.
pub open spec fn field_line(key: Seq<char>, value: Seq<char>) -> Seq<char> {
    "        "@ + key + ": "@ + string_literal(value) + ",\n"@
}

/// `p` occurs in `s`.
pub open spec fn contains_text(s: Seq<char>, p: Seq<char>) -> bool {
    exists|i: int| occurs_at(s, p, i)
}

/// A line made of the end of one piece of a text, a middle piece and the start
/// of the next piece occurs where the first piece's end starts.
proof fn lemma_split_line(q: Seq<char>, d1: Seq<char>, d2: Seq<char>, v: Seq<char>, e1: Seq<char>, e2: Seq<char>)
    ensures
        occurs_at(q + (d1 + d2) + v + (e1 + e2), d2 + v + e1, (q.len() + d1.len()) as int),
{
    let t = q + (d1 + d2) + v + (e1 + e2);
    let k: int = (q.len() + d1.len()) as int;
    assert(t.subrange(k, k + (d2 + v + e1).len()) =~= d2 + v + e1);
}

/// A line made of a whole piece of a text, a middle piece and the start of the
/// next piece occurs where the first piece starts.
proof fn lemma_piece_line(q: Seq<char>, d: Seq<char>, v: Seq<char>, e1: Seq<char>, e2: Seq<char>)
    ensures
        occurs_at(q + d + v + (e1 + e2), d + v + e1, q.len() as int),
{
    let t = q + d + v + (e1 + e2);
    let k: int = q.len() as int;
    assert(t.subrange(k, k + (d + v + e1).len()) =~= d + v + e1);
}

/// What occurs in a text occurs, at the same place, in the text extended.
proof fn lemma_occurs_extended(s: Seq<char>, u: Seq<char>, p: Seq<char>, i: int)
    requires
        occurs_at(s, p, i),
    ensures
        occurs_at(s + u, p, i),
{
    assert((s + u).subrange(i, i + p.len()) =~= s.subrange(i, i + p.len()));
}

/// The pieces of the module text around its metadata lines.
proof fn lemma_metadata_pieces()
    ensures
        "pub fn metadata() -> AgentMetadata {\n    AgentMetadata {\n        name: "@
            == "pub fn metadata() -> AgentMetadata {\n    AgentMetadata {\n"@ + ("        "@ + "name"@ + ": "@),
        ",\n        display_name: "@ == ",\n"@ + ("        "@ + "display_name"@ + ": "@),
        ",\n        description: "@ == ",\n"@ + ("        "@ + "description"@ + ": "@),
        ",\n        executor_name: "@ == ",\n"@ + ("        "@ + "executor_name"@ + ": "@),
        ",\n        capabilities: &["@ == ",\n"@ + "        capabilities: &["@,
        ";\n\n"@ == ";\n"@ + "\n"@,
        "],\n    }\n}\n\n"@ == "],\n"@ + "    }\n}\n\n"@,
        "\n}\n\n"@ == "\n}\n"@ + "\n"@,
{
    reveal_strlit("pub fn metadata() -> AgentMetadata {\n    AgentMetadata {\n        name: ");
    reveal_strlit("pub fn metadata() -> AgentMetadata {\n    AgentMetadata {\n");
    reveal_strlit("        ");
    reveal_strlit("name");
    reveal_strlit(": ");
    reveal_strlit(",\n");
    reveal_strlit(",\n        display_name: ");
    reveal_strlit("display_name");
    reveal_strlit(",\n        description: ");
    reveal_strlit("description");
    reveal_strlit(",\n        executor_name: ");
    reveal_strlit("executor_name");
    reveal_strlit(",\n        capabilities: &[");
    reveal_strlit("        capabilities: &[");
    reveal_strlit(";\n\n");
    reveal_strlit(";\n");
    reveal_strlit("\n");
    assert("pub fn metadata() -> AgentMetadata {\n    AgentMetadata {\n        name: "@
        =~= "pub fn metadata() -> AgentMetadata {\n    AgentMetadata {\n"@ + ("        "@ + "name"@ + ": "@));
    assert(",\n        display_name: "@ =~= ",\n"@ + ("        "@ + "display_name"@ + ": "@));
    assert(",\n        description: "@ =~= ",\n"@ + ("        "@ + "description"@ + ": "@));
    assert(",\n        executor_name: "@ =~= ",\n"@ + ("        "@ + "executor_name"@ + ": "@));
    assert(",\n        capabilities: &["@ =~= ",\n"@ + "        capabilities: &["@);
    assert(";\n\n"@ =~= ";\n"@ + "\n"@);
    reveal_strlit("],\n    }\n}\n\n");
    reveal_strlit("],\n");
    reveal_strlit("    }\n}\n\n");
    reveal_strlit("\n}\n\n");
    reveal_strlit("\n}\n");
    assert("],\n    }\n}\n\n"@ =~= "],\n"@ + "    }\n}\n\n"@);
    assert("\n}\n\n"@ =~= "\n}\n"@ + "\n"@);
}

/// The pieces of the text of suggested runtime settings.
proof fn lemma_config_pieces()
    ensures
        "Some(SuggestedConfig { model_tier: "@ == "Some(SuggestedConfig { "@ + "model_tier: "@,
        ", max_turns: "@ == ", "@ + "max_turns: "@,
        ", permission_mode: "@ == ", "@ + "permission_mode: "@,
        ", "@.len() == 2,
{
    reveal_strlit("Some(SuggestedConfig { model_tier: ");
    reveal_strlit("Some(SuggestedConfig { ");
    reveal_strlit("model_tier: ");
    reveal_strlit(", max_turns: ");
    reveal_strlit(", ");
    reveal_strlit("max_turns: ");
    reveal_strlit(", permission_mode: ");
    reveal_strlit("permission_mode: ");
    assert("Some(SuggestedConfig { model_tier: "@ =~= "Some(SuggestedConfig { "@ + "model_tier: "@);
    assert(", max_turns: "@ =~= ", "@ + "max_turns: "@);
    assert(", permission_mode: "@ =~= ", "@ + "permission_mode: "@);
}

/// The suggested runtime settings of an agent are `None` exactly when its file
/// gives none of them; otherwise each setting is written under its own name,
/// as the expression of that very setting.
pub proof fn lemma_config_expr_fields(agent: ParsedAgent)
    ensures
        (agent.model_tier is None && agent.max_turns is None && agent.permission_mode is None)
            ==> config_expr(agent) == "None"@,
        !(agent.model_tier is None && agent.max_turns is None && agent.permission_mode is None) ==> {
            &&& has_prefix_text(config_expr(agent), "Some(SuggestedConfig { "@)
            &&& contains_text(config_expr(agent), "model_tier: "@ + opt_string_expr(agent.model_tier) + ", "@)
            &&& contains_text(config_expr(agent), "max_turns: "@ + opt_number_expr(agent.max_turns) + ", "@)
            &&& contains_text(config_expr(agent), "permission_mode: "@ + opt_string_expr(agent.permission_mode))
        },
{
    if !(agent.model_tier is None && agent.max_turns is None && agent.permission_mode is None) {
        lemma_config_pieces();
        let a = "Some(SuggestedConfig { "@;
        let o1 = opt_string_expr(agent.model_tier);
        let o2 = opt_number_expr(agent.max_turns);
        let o3 = opt_string_expr(agent.permission_mode);
        let k0 = "Some(SuggestedConfig { model_tier: "@;
        let k2 = ", max_turns: "@;
        let k4 = ", permission_mode: "@;
        let k6 = " })"@;
        let t = config_expr(agent);
        assert(t == k0 + o1 + k2 + o2 + k4 + o3 + k6);
        assert(t.subrange(0, a.len() as int) =~= a) by {
            assert(t =~= a + ("model_tier: "@ + o1 + k2 + o2 + k4 + o3 + k6));
        }
        lemma_split_line(Seq::<char>::empty(), a, "model_tier: "@, o1, ", "@, "max_turns: "@);
        assert(Seq::<char>::empty() + k0 =~= k0);
        lemma_occurs_extended(k0 + o1 + k2, o2, "model_tier: "@ + o1 + ", "@, a.len() as int);
        lemma_occurs_extended(k0 + o1 + k2 + o2, k4, "model_tier: "@ + o1 + ", "@, a.len() as int);
        lemma_occurs_extended(k0 + o1 + k2 + o2 + k4, o3, "model_tier: "@ + o1 + ", "@, a.len() as int);
        lemma_occurs_extended(k0 + o1 + k2 + o2 + k4 + o3, k6, "model_tier: "@ + o1 + ", "@, a.len() as int);
        lemma_split_line(k0 + o1, ", "@, "max_turns: "@, o2, ", "@, "permission_mode: "@);
        let i2 = ((k0 + o1).len() + 2) as int;
        lemma_occurs_extended(k0 + o1 + k2 + o2 + k4, o3, "max_turns: "@ + o2 + ", "@, i2);
        lemma_occurs_extended(k0 + o1 + k2 + o2 + k4 + o3, k6, "max_turns: "@ + o2 + ", "@, i2);
        let pre3 = k0 + o1 + k2 + o2 + ", "@;
        assert(t =~= pre3 + ("permission_mode: "@ + o3) + k6);
        lemma_occurs_in_middle(pre3, "permission_mode: "@ + o3, k6);
    }
}

/// `s` as a decimal number (read from its digits).
pub open spec fn decimal_value(s: Seq<char>) -> int
    decreases s.len(),
{
    if s.len() == 0 {
        0
    } else {
        decimal_value(s.drop_last()) * 10 + digit_value(s.last())
    }
}

/// The value of a decimal digit.
pub open spec fn digit_value(c: char) -> int {
    (c as int) - ('0' as int)
}

/// A decimal digit reads back as its value.
proof fn lemma_digit(d: int)
    requires
        0 <= d < 10,
    ensures
        is_digit(digit(d)),
        digit_value(digit(d)) == d,
{
}

/// The decimal text of a number is made of digits, starts with a non-zero digit
/// unless the number is 0, and reads back as that number.
pub proof fn lemma_decimal_reads_back(n: nat)
    ensures
        decimal(n).len() >= 1,
        (n >= 10) == (decimal(n).len() >= 2),
        all_digits(decimal(n)),
        decimal(n).len() > 1 ==> decimal(n)[0] != '0',
        decimal_value(decimal(n)) == n,
    decreases n,
{
    let d = decimal(n);
    if n < 10 {
        lemma_digit(n as int);
        assert(d.drop_last() =~= Seq::<char>::empty());
        assert(decimal_value(d) == decimal_value(d.drop_last()) * 10 + digit_value(d.last()));
    } else {
        lemma_decimal_reads_back(n / 10);
        let q = decimal(n / 10);
        let r = (n % 10) as int;
        lemma_digit(r);
        assert(d == q + seq![digit(r)]);
        assert(d.drop_last() =~= q);
        assert(d.last() == digit(r));
        assert(d[0] == q[0]);
        if q.len() == 1 {
            lemma_digit((n / 10) as int);
            assert(q[0] == digit((n / 10) as int));
        }
        vstd::arithmetic::div_mod::lemma_fundamental_div_mod(n as int, 10);
        assert(decimal_value(d) == decimal_value(q) * 10 + r);
    }
}

/// An absent setting is written `None`; a present one as `Some(..)` around the
/// string literal of its text or the decimal text of its number; a present
/// temperature as the decimal text of its bit pattern.
pub proof fn lemma_optional_exprs(text: Option<String>, number: Option<u32>, temperature_bits: Option<u32>)
    ensures
        text is None ==> opt_string_expr(text) == "None"@,
        number is None ==> opt_number_expr(number) == "None"@,
        temperature_bits is None ==> params_expr(temperature_bits) == "None"@,
        text matches Some(t) ==> has_prefix_text(opt_string_expr(text), "Some("@) && contains_text(
            opt_string_expr(text),
            string_literal(t@),
        ),
        number matches Some(n) ==> opt_number_expr(number) == "Some("@ + decimal(n as nat) + ")"@,
        temperature_bits matches Some(b) ==> contains_text(params_expr(temperature_bits), decimal(b as nat)),
{
    if let Some(t) = text {
        let e = opt_string_expr(text);
        let a = "Some("@;
        let l = string_literal(t@);
        let z = ".to_string())"@;
        assert(e == a + l + z);
        assert(e.subrange(0, a.len() as int) =~= a);
        lemma_occurs_in_middle(a, l, z);
    }
    if let Some(b) = temperature_bits {
        let a = "Some(GenerationParams { model: None, temperature: Some(f32::from_bits("@;
        let z = ")), max_tokens: None })"@;
        lemma_occurs_in_middle(a, decimal(b as nat), z);
    }
}

/// The module of an agent holds its system prompt as the string literal of the
/// agent's body; its metadata with each text field set to the string literal of
/// that very field of the agent (the name, display name, description and
/// executor name of one agent never take each other's place) and with the
/// literal of each capability, in order; and the agent's suggested generation
/// parameters and runtime settings as the bodies of `suggested_params` and
/// `suggested_config`.
pub proof fn lemma_agent_file_fields(agent: ParsedAgent, timestamp: Seq<char>)
    ensures
        contains_text(
            agent_file_text(agent, timestamp),
            "pub const SYSTEM_PROMPT: &str = "@ + string_literal(agent.body@) + ";\n"@,
        ),
        contains_text(agent_file_text(agent, timestamp), field_line("name"@, agent.name@)),
        contains_text(agent_file_text(agent, timestamp), field_line("display_name"@, agent.display_name@)),
        contains_text(agent_file_text(agent, timestamp), field_line("description"@, agent.description@)),
        contains_text(agent_file_text(agent, timestamp), field_line("executor_name"@, agent.executor_name@)),
        forall|c: int|
            0 <= c < agent.capabilities@.len() ==> contains_text(
                agent_file_text(agent, timestamp),
                #[trigger] string_literal(agent.capabilities@[c]@),
            ),
        forall|c: int|
            0 <= c < agent.capabilities@.len() - 1 ==> contains_text(
                agent_file_text(agent, timestamp),
                #[trigger] string_literal(agent.capabilities@[c]@) + ", "@ + string_literal(
                    agent.capabilities@[c + 1]@,
                ),
            ),
        contains_text(
            agent_file_text(agent, timestamp),
            "pub fn suggested_params() -> Option<GenerationParams> {\n    "@ + params_expr(agent.temperature_bits)
                + "\n}\n"@,
        ),
        contains_text(
            agent_file_text(agent, timestamp),
            "pub fn suggested_config() -> Option<SuggestedConfig> {\n    "@ + config_expr(agent) + "\n}\n"@,
        ),
{
    lemma_metadata_pieces();
    let t = agent_file_text(agent, timestamp);
    let k0 = "// "@;
    let k1 = agent.display_name@;
    let k2 = " (agents/"@;
    let k3 = agent.name@;
    let k4 = ".md, "@;
    let k5 = timestamp;
    let k6 = ")\n"@;
    let k7 = "use bmad_types::{AgentMetadata, GenerationParams, SuggestedConfig};\n\n"@;
    let k8 = "pub const SYSTEM_PROMPT: &str = "@;
    let k9 = string_literal(agent.body@);
    let k10 = ";\n\n"@;
    let k11 = "pub fn metadata() -> AgentMetadata {\n    AgentMetadata {\n        name: "@;
    let k12 = string_literal(agent.name@);
    let k13 = ",\n        display_name: "@;
    let k14 = string_literal(agent.display_name@);
    let k15 = ",\n        description: "@;
    let k16 = string_literal(agent.description@);
    let k17 = ",\n        executor_name: "@;
    let k18 = string_literal(agent.executor_name@);
    let k19 = ",\n        capabilities: &["@;
    let k20 = capability_items(agent.capabilities@);
    let k21 = "],\n    }\n}\n\n"@;
    let k22 = "pub fn suggested_params() -> Option<GenerationParams> {\n    "@;
    let k23 = params_expr(agent.temperature_bits);
    let k24 = "\n}\n\n"@;
    let k25 = "pub fn suggested_config() -> Option<SuggestedConfig> {\n    "@;
    let k26 = config_expr(agent);
    let k27 = "\n}\n"@;
    let s1 = k0;
    let s2 = s1 + k1;
    let s3 = s2 + k2;
    let s4 = s3 + k3;
    let s5 = s4 + k4;
    let s6 = s5 + k5;
    let s7 = s6 + k6;
    let s8 = s7 + k7;
    let s9 = s8 + k8;
    let s10 = s9 + k9;
    let s11 = s10 + k10;
    let s12 = s11 + k11;
    let s13 = s12 + k12;
    let s14 = s13 + k13;
    let s15 = s14 + k14;
    let s16 = s15 + k15;
    let s17 = s16 + k16;
    let s18 = s17 + k17;
    let s19 = s18 + k18;
    let s20 = s19 + k19;
    let s21 = s20 + k20;
    let s22 = s21 + k21;
    let s23 = s22 + k22;
    let s24 = s23 + k23;
    let s25 = s24 + k24;
    let s26 = s25 + k25;
    let s27 = s26 + k26;
    let s28 = s27 + k27;
    assert(t == s28);
    let prompt_line = k8 + k9 + ";\n"@;
    assert(contains_text(t, prompt_line)) by {
        lemma_piece_line(s8, k8, k9, ";\n"@, "\n"@);
        lemma_occurs_extended(s11, k11, prompt_line, s8.len() as int);
        lemma_occurs_extended(s12, k12, prompt_line, s8.len() as int);
        lemma_occurs_extended(s13, k13, prompt_line, s8.len() as int);
        lemma_occurs_extended(s14, k14, prompt_line, s8.len() as int);
        lemma_occurs_extended(s15, k15, prompt_line, s8.len() as int);
        lemma_occurs_extended(s16, k16, prompt_line, s8.len() as int);
        lemma_occurs_extended(s17, k17, prompt_line, s8.len() as int);
        lemma_occurs_extended(s18, k18, prompt_line, s8.len() as int);
        lemma_occurs_extended(s19, k19, prompt_line, s8.len() as int);
        lemma_occurs_extended(s20, k20, prompt_line, s8.len() as int);
        lemma_occurs_extended(s21, k21, prompt_line, s8.len() as int);
        lemma_occurs_extended(s22, k22, prompt_line, s8.len() as int);
        lemma_occurs_extended(s23, k23, prompt_line, s8.len() as int);
        lemma_occurs_extended(s24, k24, prompt_line, s8.len() as int);
        lemma_occurs_extended(s25, k25, prompt_line, s8.len() as int);
        lemma_occurs_extended(s26, k26, prompt_line, s8.len() as int);
        lemma_occurs_extended(s27, k27, prompt_line, s8.len() as int);
    }
    assert(contains_text(t, field_line("name"@, agent.name@))) by {
        lemma_split_line(s11, "pub fn metadata() -> AgentMetadata {\n    AgentMetadata {\n"@, ("        "@ + "name"@ + ": "@), k12, ",\n"@, ("        "@ + "display_name"@ + ": "@));
        lemma_occurs_extended(s14, k14, field_line("name"@, agent.name@), (s11.len() + "pub fn metadata() -> AgentMetadata {\n    AgentMetadata {\n"@.len()) as int);
        lemma_occurs_extended(s15, k15, field_line("name"@, agent.name@), (s11.len() + "pub fn metadata() -> AgentMetadata {\n    AgentMetadata {\n"@.len()) as int);
        lemma_occurs_extended(s16, k16, field_line("name"@, agent.name@), (s11.len() + "pub fn metadata() -> AgentMetadata {\n    AgentMetadata {\n"@.len()) as int);
        lemma_occurs_extended(s17, k17, field_line("name"@, agent.name@), (s11.len() + "pub fn metadata() -> AgentMetadata {\n    AgentMetadata {\n"@.len()) as int);
        lemma_occurs_extended(s18, k18, field_line("name"@, agent.name@), (s11.len() + "pub fn metadata() -> AgentMetadata {\n    AgentMetadata {\n"@.len()) as int);
        lemma_occurs_extended(s19, k19, field_line("name"@, agent.name@), (s11.len() + "pub fn metadata() -> AgentMetadata {\n    AgentMetadata {\n"@.len()) as int);
        lemma_occurs_extended(s20, k20, field_line("name"@, agent.name@), (s11.len() + "pub fn metadata() -> AgentMetadata {\n    AgentMetadata {\n"@.len()) as int);
        lemma_occurs_extended(s21, k21, field_line("name"@, agent.name@), (s11.len() + "pub fn metadata() -> AgentMetadata {\n    AgentMetadata {\n"@.len()) as int);
        lemma_occurs_extended(s22, k22, field_line("name"@, agent.name@), (s11.len() + "pub fn metadata() -> AgentMetadata {\n    AgentMetadata {\n"@.len()) as int);
        lemma_occurs_extended(s23, k23, field_line("name"@, agent.name@), (s11.len() + "pub fn metadata() -> AgentMetadata {\n    AgentMetadata {\n"@.len()) as int);
        lemma_occurs_extended(s24, k24, field_line("name"@, agent.name@), (s11.len() + "pub fn metadata() -> AgentMetadata {\n    AgentMetadata {\n"@.len()) as int);
        lemma_occurs_extended(s25, k25, field_line("name"@, agent.name@), (s11.len() + "pub fn metadata() -> AgentMetadata {\n    AgentMetadata {\n"@.len()) as int);
        lemma_occurs_extended(s26, k26, field_line("name"@, agent.name@), (s11.len() + "pub fn metadata() -> AgentMetadata {\n    AgentMetadata {\n"@.len()) as int);
        lemma_occurs_extended(s27, k27, field_line("name"@, agent.name@), (s11.len() + "pub fn metadata() -> AgentMetadata {\n    AgentMetadata {\n"@.len()) as int);
    }
    assert(contains_text(t, field_line("display_name"@, agent.display_name@))) by {
        lemma_split_line(s13, ",\n"@, ("        "@ + "display_name"@ + ": "@), k14, ",\n"@, ("        "@ + "description"@ + ": "@));
        lemma_occurs_extended(s16, k16, field_line("display_name"@, agent.display_name@), (s13.len() + ",\n"@.len()) as int);
        lemma_occurs_extended(s17, k17, field_line("display_name"@, agent.display_name@), (s13.len() + ",\n"@.len()) as int);
        lemma_occurs_extended(s18, k18, field_line("display_name"@, agent.display_name@), (s13.len() + ",\n"@.len()) as int);
        lemma_occurs_extended(s19, k19, field_line("display_name"@, agent.display_name@), (s13.len() + ",\n"@.len()) as int);
        lemma_occurs_extended(s20, k20, field_line("display_name"@, agent.display_name@), (s13.len() + ",\n"@.len()) as int);
        lemma_occurs_extended(s21, k21, field_line("display_name"@, agent.display_name@), (s13.len() + ",\n"@.len()) as int);
        lemma_occurs_extended(s22, k22, field_line("display_name"@, agent.display_name@), (s13.len() + ",\n"@.len()) as int);
        lemma_occurs_extended(s23, k23, field_line("display_name"@, agent.display_name@), (s13.len() + ",\n"@.len()) as int);
        lemma_occurs_extended(s24, k24, field_line("display_name"@, agent.display_name@), (s13.len() + ",\n"@.len()) as int);
        lemma_occurs_extended(s25, k25, field_line("display_name"@, agent.display_name@), (s13.len() + ",\n"@.len()) as int);
        lemma_occurs_extended(s26, k26, field_line("display_name"@, agent.display_name@), (s13.len() + ",\n"@.len()) as int);
        lemma_occurs_extended(s27, k27, field_line("display_name"@, agent.display_name@), (s13.len() + ",\n"@.len()) as int);
    }
    assert(contains_text(t, field_line("description"@, agent.description@))) by {
        lemma_split_line(s15, ",\n"@, ("        "@ + "description"@ + ": "@), k16, ",\n"@, ("        "@ + "executor_name"@ + ": "@));
        lemma_occurs_extended(s18, k18, field_line("description"@, agent.description@), (s15.len() + ",\n"@.len()) as int);
        lemma_occurs_extended(s19, k19, field_line("description"@, agent.description@), (s15.len() + ",\n"@.len()) as int);
        lemma_occurs_extended(s20, k20, field_line("description"@, agent.description@), (s15.len() + ",\n"@.len()) as int);
        lemma_occurs_extended(s21, k21, field_line("description"@, agent.description@), (s15.len() + ",\n"@.len()) as int);
        lemma_occurs_extended(s22, k22, field_line("description"@, agent.description@), (s15.len() + ",\n"@.len()) as int);
        lemma_occurs_extended(s23, k23, field_line("description"@, agent.description@), (s15.len() + ",\n"@.len()) as int);
        lemma_occurs_extended(s24, k24, field_line("description"@, agent.description@), (s15.len() + ",\n"@.len()) as int);
        lemma_occurs_extended(s25, k25, field_line("description"@, agent.description@), (s15.len() + ",\n"@.len()) as int);
        lemma_occurs_extended(s26, k26, field_line("description"@, agent.description@), (s15.len() + ",\n"@.len()) as int);
        lemma_occurs_extended(s27, k27, field_line("description"@, agent.description@), (s15.len() + ",\n"@.len()) as int);
    }
    assert(contains_text(t, field_line("executor_name"@, agent.executor_name@))) by {
        lemma_split_line(s17, ",\n"@, ("        "@ + "executor_name"@ + ": "@), k18, ",\n"@, "        capabilities: &["@);
        lemma_occurs_extended(s20, k20, field_line("executor_name"@, agent.executor_name@), (s17.len() + ",\n"@.len()) as int);
        lemma_occurs_extended(s21, k21, field_line("executor_name"@, agent.executor_name@), (s17.len() + ",\n"@.len()) as int);
        lemma_occurs_extended(s22, k22, field_line("executor_name"@, agent.executor_name@), (s17.len() + ",\n"@.len()) as int);
        lemma_occurs_extended(s23, k23, field_line("executor_name"@, agent.executor_name@), (s17.len() + ",\n"@.len()) as int);
        lemma_occurs_extended(s24, k24, field_line("executor_name"@, agent.executor_name@), (s17.len() + ",\n"@.len()) as int);
        lemma_occurs_extended(s25, k25, field_line("executor_name"@, agent.executor_name@), (s17.len() + ",\n"@.len()) as int);
        lemma_occurs_extended(s26, k26, field_line("executor_name"@, agent.executor_name@), (s17.len() + ",\n"@.len()) as int);
        lemma_occurs_extended(s27, k27, field_line("executor_name"@, agent.executor_name@), (s17.len() + ",\n"@.len()) as int);
    }
    let caps_line = "        capabilities: &["@ + k20 + "],\n"@;
    assert(contains_text(t, caps_line)) by {
        lemma_split_line(s19, ",\n"@, "        capabilities: &["@, k20, "],\n"@, "    }\n}\n\n"@);
        lemma_occurs_extended(s22, k22, caps_line, (s19.len() + ",\n"@.len()) as int);
        lemma_occurs_extended(s23, k23, caps_line, (s19.len() + ",\n"@.len()) as int);
        lemma_occurs_extended(s24, k24, caps_line, (s19.len() + ",\n"@.len()) as int);
        lemma_occurs_extended(s25, k25, caps_line, (s19.len() + ",\n"@.len()) as int);
        lemma_occurs_extended(s26, k26, caps_line, (s19.len() + ",\n"@.len()) as int);
        lemma_occurs_extended(s27, k27, caps_line, (s19.len() + ",\n"@.len()) as int);
    }
    let params_line = k22 + k23 + "\n}\n"@;
    assert(contains_text(t, params_line)) by {
        lemma_piece_line(s22, k22, k23, "\n}\n"@, "\n"@);
        lemma_occurs_extended(s25, k25, params_line, s22.len() as int);
        lemma_occurs_extended(s26, k26, params_line, s22.len() as int);
        lemma_occurs_extended(s27, k27, params_line, s22.len() as int);
    }
    let config_line = k25 + k26 + k27;
    assert(contains_text(t, config_line)) by {
        assert(t =~= s25 + config_line + Seq::<char>::empty());
        lemma_occurs_in_middle(s25, config_line, Seq::<char>::empty());
    }
    let items = agent.capabilities@.map_values(|c: String| string_literal(c@));
    let caps_open = "        capabilities: &["@;
    assert forall|c: int| 0 <= c < agent.capabilities@.len() implies contains_text(
        t,
        #[trigger] string_literal(agent.capabilities@[c]@),
    ) by {
        lemma_join_each(items, ", "@, c);
        let i = choose|i: int| #[trigger] occurs_at(k20, items[c], i);
        let j = choose|j: int| #[trigger] occurs_at(t, caps_line, j);
        lemma_occurs_shifted(caps_open, k20, "],\n"@, items[c], i);
        lemma_occurs_within(t, caps_line, j, items[c], caps_open.len() + i);
    }
    assert forall|c: int| 0 <= c < agent.capabilities@.len() - 1 implies contains_text(
        t,
        #[trigger] string_literal(agent.capabilities@[c]@) + ", "@ + string_literal(agent.capabilities@[c + 1]@),
    ) by {
        lemma_join_pairs(items, ", "@, c);
        let pair = items[c] + ", "@ + items[c + 1];
        let i = choose|i: int| #[trigger] occurs_at(k20, pair, i);
        let j = choose|j: int| #[trigger] occurs_at(t, caps_line, j);
        lemma_occurs_shifted(caps_open, k20, "],\n"@, pair, i);
        lemma_occurs_within(t, caps_line, j, pair, caps_open.len() + i);
    }

}

/// The last item of a joined list ends the text.
proof fn lemma_join_last(l: Seq<Seq<char>>, sep: Seq<char>)
    requires
        l.len() >= 1,
    ensures
        has_suffix_text(join(l, sep), l.last()),
{
    let j = join(l, sep);
    if l.len() == 1 {
        assert(j.subrange(0, j.len() as int) =~= j);
    } else {
        let pre = join(l.drop_last(), sep) + sep;
        assert(j == pre + l.last());
        assert(j.subrange(j.len() - l.last().len(), j.len() as int) =~= l.last());
    }
}

/// Two neighbouring items of a joined list stand in it with the separator between them.
proof fn lemma_join_pairs(l: Seq<Seq<char>>, sep: Seq<char>, k: int)
    requires
        0 <= k < l.len() - 1,
    ensures
        contains_text(join(l, sep), l[k] + sep + l[k + 1]),
    decreases l.len(),
{
    let n = l.len() as int;
    let dl = l.drop_last();
    let j = join(l, sep);
    assert(j == join(dl, sep) + sep + l[n - 1]);
    if k == n - 2 {
        lemma_join_last(dl, sep);
        let jd = join(dl, sep);
        let x = jd.subrange(0, jd.len() - dl.last().len());
        assert(jd =~= x + dl.last());
        assert(dl.last() == l[k]);
        assert(j =~= x + (l[k] + sep + l[k + 1]) + Seq::<char>::empty());
        lemma_occurs_in_middle(x, l[k] + sep + l[k + 1], Seq::<char>::empty());
    } else {
        lemma_join_pairs(dl, sep, k);
        assert(dl[k] == l[k] && dl[k + 1] == l[k + 1]);
        let i = choose|i: int| #[trigger] occurs_at(join(dl, sep), l[k] + sep + l[k + 1], i);
        lemma_occurs_extended(join(dl, sep), sep + l[n - 1], l[k] + sep + l[k + 1], i);
        assert(j =~= join(dl, sep) + (sep + l[n - 1]));
    }
}

/// Each item of a joined list stands in it.
proof fn lemma_join_each(l: Seq<Seq<char>>, sep: Seq<char>, k: int)
    requires
        0 <= k < l.len(),
    ensures
        contains_text(join(l, sep), l[k]),
{
    let j = join(l, sep);
    if k == l.len() - 1 {
        lemma_join_last(l, sep);
        assert(occurs_at(j, l[k], j.len() - l[k].len()));
    } else {
        lemma_join_pairs(l, sep, k);
        let i = choose|i: int| #[trigger] occurs_at(j, l[k] + sep + l[k + 1], i);
        let pair = l[k] + sep + l[k + 1];
        assert(occurs_at(j, pair, i));
        assert(j.subrange(i, i + pair.len()) == pair);
        assert(pair.subrange(0, l[k].len() as int) =~= l[k]);
        assert(j.subrange(i, i + l[k].len()) =~= j.subrange(i, i + pair.len()).subrange(0, l[k].len() as int));
        assert(occurs_at(j, l[k], i));
    }
}

/// What occurs in a piece that occurs in a text occurs in the text.
proof fn lemma_occurs_within(s: Seq<char>, p: Seq<char>, i: int, q: Seq<char>, j: int)
    requires
        occurs_at(s, p, i),
        occurs_at(p, q, j),
    ensures
        occurs_at(s, q, i + j),
{
    assert(s.subrange(i + j, i + j + q.len()) =~= p.subrange(j, j + q.len()));
}

/// Appends the capability list of an agent to `out`.
fn push_capability_items(out: &mut String, caps: &Vec<String>)
    ensures
        final(out)@ == old(out)@ + capability_items(caps@),
{
    let ghost items = caps@.map_values(|c: String| string_literal(c@));
    let ghost start = out@;
    let mut i: usize = 0;
    while i < caps.len()
        invariant
            i <= caps@.len(),
            items == caps@.map_values(|c: String| string_literal(c@)),
            out@ == start + join(items.take(i as int), ", "@),
        decreases caps@.len() - i,
    {
        assert(items.take(i + 1).drop_last() =~= items.take(i as int));
        let ghost prev = out@;
        if i > 0 {
            out.append(", ");
        } else {
            assert(join(items.take(0), ", "@) =~= Seq::<char>::empty());
        }
        push_string_literal(out, caps[i].as_str());
        assert(out@ =~= start + join(items.take(i + 1), ", "@));
        i = i + 1;
    }
    assert(items.take(i as int) =~= items);
}

/// The Rust module for `agent`, stamped with `timestamp`.
pub fn generate_agent_file(agent: &ParsedAgent, timestamp: &str) -> (r: String)
    ensures
        r@ == agent_file_text(*agent, timestamp@),
{
    let mut out = String::from_str("// ");
    out.append(agent.display_name.as_str());
    out.append(" (agents/");
    out.append(agent.name.as_str());
    out.append(".md, ");
    out.append(timestamp);
    out.append(")\n");
    out.append("use bmad_types::{AgentMetadata, GenerationParams, SuggestedConfig};\n\n");
    out.append("pub const SYSTEM_PROMPT: &str = ");
    push_string_literal(&mut out, agent.body.as_str());
    out.append(";\n\n");
    out.append("pub fn metadata() -> AgentMetadata {\n    AgentMetadata {\n        name: ");
    push_string_literal(&mut out, agent.name.as_str());
    out.append(",\n        display_name: ");
    push_string_literal(&mut out, agent.display_name.as_str());
    out.append(",\n        description: ");
    push_string_literal(&mut out, agent.description.as_str());
    out.append(",\n        executor_name: ");
    push_string_literal(&mut out, agent.executor_name.as_str());
    out.append(",\n        capabilities: &[");
    push_capability_items(&mut out, &agent.capabilities);
    out.append("],\n    }\n}\n\n");
    out.append("pub fn suggested_params() -> Option<GenerationParams> {\n    ");
    match agent.temperature_bits {
        None => out.append("None"),
        Some(bits) => {
            out.append("Some(GenerationParams { model: None, temperature: Some(f32::from_bits(");
            push_decimal(&mut out, bits);
            out.append(")), max_tokens: None })");
        },
    }
    out.append("\n}\n\n");
    out.append("pub fn suggested_config() -> Option<SuggestedConfig> {\n    ");
    push_config_expr(&mut out, agent);
    out.append("\n}\n");
    out
}

/// The lines of the module file that are written once per agent.
#[derive(Clone, Copy, PartialEq, Eq, Debug)]
pub enum ModuleLine {
    /// `pub mod <module>;`
    Declaration,
    /// `<module>::metadata(),`
    Metadata,
    /// `(<module>::metadata(), <module>::SYSTEM_PROMPT, ...),`
    Entry,
}

/// The line of kind `kind` for the agent module `m`.
pub open spec fn module_line(kind: ModuleLine, m: Seq<char>) -> Seq<char> {
    match kind {
        ModuleLine::Declaration => "pub mod "@ + m + ";\n"@,
        ModuleLine::Metadata => "        "@ + m + "::metadata(),\n"@,
        ModuleLine::Entry => "        ("@ + m + "::metadata(), "@ + m + "::SYSTEM_PROMPT, "@ + m
            + "::suggested_params(), "@ + m + "::suggested_config()),\n"@,
    }
}

/// The lines of kind `kind` for every agent of `agents`, in order.
pub open spec fn module_lines(kind: ModuleLine, agents: Seq<ParsedAgent>) -> Seq<char> {
    flatten(agents.map_values(|a: ParsedAgent| module_line(kind, hyphens_to_underscores(a.name@))))
}

/// The module file that declares the module of every agent of `agents` and lists them.
pub open spec fn mod_file_text(agents: Seq<ParsedAgent>) -> Seq<char> {
    "// Agent modules, one per agent file.\n"@ + module_lines(ModuleLine::Declaration, agents)
        + "\nuse bmad_types::{AgentMetadata, GenerationParams, SuggestedConfig};\n\n"@
        + "pub fn all_agents() -> Vec<AgentMetadata> {\n    vec![\n"@
        + module_lines(ModuleLine::Metadata, agents) + "    ]\n}\n\n"@
        + "pub fn all_agent_entries() -> Vec<(AgentMetadata, &'static str, Option<GenerationParams>, Option<SuggestedConfig>)> {\n    vec![\n"@
        + module_lines(ModuleLine::Entry, agents) + "    ]\n}\n"@
}

/// The text that opens the lines of kind `kind` in the module file.
pub open spec fn lines_open(kind: ModuleLine) -> Seq<char> {
    match kind {
        ModuleLine::Declaration => "// Agent modules, one per agent file.\n"@,
        ModuleLine::Metadata => "pub fn all_agents() -> Vec<AgentMetadata> {\n    vec![\n"@,
        ModuleLine::Entry => "pub fn all_agent_entries() -> Vec<(AgentMetadata, &'static str, Option<GenerationParams>, Option<SuggestedConfig>)> {\n    vec![\n"@,
    }
}

/// The text that closes the lines of kind `kind` in the module file.
pub open spec fn lines_close(kind: ModuleLine) -> Seq<char> {
    match kind {
        ModuleLine::Declaration => "\nuse bmad_types::{AgentMetadata, GenerationParams, SuggestedConfig};\n\n"@,
        ModuleLine::Metadata => "    ]\n}\n\n"@,
        ModuleLine::Entry => "    ]\n}\n"@,
    }
}

/// The line of kind `kind` that names the module of `agent`.
pub open spec fn agent_line(kind: ModuleLine, agent: ParsedAgent) -> Seq<char> {
    module_line(kind, hyphens_to_underscores(agent.name@))
}

/// Joining two lists of pieces joins their texts.
proof fn lemma_flatten_add(a: Seq<Seq<char>>, b: Seq<Seq<char>>)
    ensures
        flatten(a + b) == flatten(a) + flatten(b),
    decreases b.len(),
{
    if b.len() == 0 {
        assert(a + b =~= a);
        assert(flatten(a) + flatten(b) =~= flatten(a));
    } else {
        assert((a + b).drop_last() =~= a + b.drop_last());
        assert((a + b).last() == b.last());
        lemma_flatten_add(a, b.drop_last());
        assert(flatten(a + b) =~= flatten(a) + flatten(b));
    }
}

/// A run of consecutive pieces occurs in the text of all the pieces.
proof fn lemma_flatten_window(l: Seq<Seq<char>>, k: int, w: int)
    requires
        0 <= k,
        0 <= w,
        k + w <= l.len(),
    ensures
        occurs_at(flatten(l), flatten(l.subrange(k, k + w)), flatten(l.take(k)).len() as int),
{
    let front = l.take(k);
    let mid = l.subrange(k, k + w);
    let back = l.skip(k + w);
    assert(l =~= front + mid + back);
    lemma_flatten_add(front + mid, back);
    lemma_flatten_add(front, mid);
    lemma_occurs_in_middle(flatten(front), flatten(mid), flatten(back));
}

/// One piece, and two pieces, as a text.
proof fn lemma_flatten_short(x: Seq<char>, y: Seq<char>)
    ensures
        flatten(seq![x]) == x,
        flatten(seq![x, y]) == x + y,
{
    let none = Seq::<Seq<char>>::empty();
    assert(flatten(none) =~= Seq::<char>::empty());
    assert(seq![x].drop_last() =~= none);
    assert(flatten(seq![x]) == flatten(none) + x);
    assert(flatten(seq![x]) =~= x);
    assert(seq![x, y].drop_last() =~= seq![x]);
    assert(flatten(seq![x, y]) == flatten(seq![x]) + y);
}

/// A piece of a text, with what stands before and after it, occurs in it.
proof fn lemma_occurs_in_middle(pre: Seq<char>, mid: Seq<char>, post: Seq<char>)
    ensures
        occurs_at(pre + mid + post, mid, pre.len() as int),
{
    assert((pre + mid + post).subrange(pre.len() as int, (pre.len() + mid.len()) as int) =~= mid);
}

/// What occurs in a piece of a text occurs in the text, shifted by what stands before.
proof fn lemma_occurs_shifted(pre: Seq<char>, mid: Seq<char>, post: Seq<char>, p: Seq<char>, i: int)
    requires
        occurs_at(mid, p, i),
    ensures
        occurs_at(pre + mid + post, p, pre.len() + i),
{
    assert((pre + mid + post).subrange(pre.len() + i, pre.len() + i + p.len()) =~= mid.subrange(i, i + p.len()));
}

/// Lines of one kind in the text of the module file: opened, then the line of
/// each agent in turn, one right after the other, then closed.
proof fn lemma_lines_block(kind: ModuleLine, agents: Seq<ParsedAgent>, pre: Seq<char>, post: Seq<char>)
    requires
        has_suffix_text(pre, lines_open(kind)),
        has_prefix_text(post, lines_close(kind)),
    ensures
        agents.len() == 0 ==> contains_text(pre + module_lines(kind, agents) + post, lines_open(kind) + lines_close(kind)),
        agents.len() > 0 ==> contains_text(
            pre + module_lines(kind, agents) + post,
            lines_open(kind) + agent_line(kind, agents[0]),
        ),
        agents.len() > 0 ==> contains_text(
            pre + module_lines(kind, agents) + post,
            agent_line(kind, agents.last()) + lines_close(kind),
        ),
        forall|k: int|
            0 <= k < agents.len() - 1 ==> contains_text(
                pre + module_lines(kind, agents) + post,
                #[trigger] agent_line(kind, agents[k]) + agent_line(kind, agents[k + 1]),
            ),
{
    let l = agents.map_values(|a: ParsedAgent| module_line(kind, hyphens_to_underscores(a.name@)));
    let body = flatten(l);
    let t = pre + body + post;
    let op = lines_open(kind);
    let cl = lines_close(kind);
    let p0 = pre.subrange(0, pre.len() - op.len());
    let post_rest = post.skip(cl.len() as int);
    assert(pre =~= p0 + op);
    assert(post =~= cl + post_rest);
    if agents.len() == 0 {
        assert(l =~= Seq::<Seq<char>>::empty());
        assert(body =~= Seq::<char>::empty());
        assert(t =~= p0 + (op + cl) + post_rest);
        lemma_occurs_in_middle(p0, op + cl, post_rest);
    } else {
        let n = agents.len() as int;
        lemma_flatten_window(l, 0, 1);
        lemma_flatten_short(l[0], l[0]);
        assert(l.subrange(0, 1) =~= seq![l[0]]);
        assert(l.take(0) =~= Seq::<Seq<char>>::empty());
        let first = l[0];
        let b1 = body.skip(first.len() as int);
        assert(body.subrange(0, first.len() as int) =~= first);
        assert(body =~= first + b1);
        assert(t =~= p0 + (op + first) + (b1 + post));
        lemma_occurs_in_middle(p0, op + first, b1 + post);
        assert(agent_line(kind, agents[0]) == first);
        lemma_flatten_window(l, n - 1, 1);
        assert(l.subrange(n - 1, n) =~= seq![l[n - 1]]);
        let last = l[n - 1];
        let bl = body.take(body.len() - last.len());
        assert(l.take(n - 1) + seq![last] =~= l);
        lemma_flatten_add(l.take(n - 1), seq![last]);
        assert(body =~= bl + last);
        assert(t =~= (pre + bl) + (last + cl) + post_rest);
        lemma_occurs_in_middle(pre + bl, last + cl, post_rest);
        assert(agent_line(kind, agents.last()) == last);
        assert forall|k: int| 0 <= k < agents.len() - 1 implies contains_text(
            t,
            #[trigger] agent_line(kind, agents[k]) + agent_line(kind, agents[k + 1]),
        ) by {
            lemma_flatten_window(l, k, 2);
            assert(l.subrange(k, k + 2) =~= seq![l[k], l[k + 1]]);
            lemma_flatten_short(l[k], l[k + 1]);
            let i = flatten(l.take(k)).len() as int;
            lemma_occurs_shifted(pre, body, post, l[k] + l[k + 1], i);
        }
    }
}

/// `p` starts `s`.
pub open spec fn has_prefix_text(s: Seq<char>, p: Seq<char>) -> bool {
    p.len() <= s.len() && s.subrange(0, p.len() as int) == p
}

/// `p` ends `s`.
pub open spec fn has_suffix_text(s: Seq<char>, p: Seq<char>) -> bool {
    p.len() <= s.len() && s.subrange(s.len() - p.len(), s.len() as int) == p
}

/// The module file lists the agents three times (module declarations, the
/// metadata of `all_agents` and the entries of `all_agent_entries`), each list
/// opened, then one line per agent naming that agent's module, in the order of
/// the agents and each right after the one before, then closed; with no agents,
/// each list is opened and closed at once.
pub proof fn lemma_mod_file_lists_every_agent(agents: Seq<ParsedAgent>, kind: ModuleLine)
    ensures
        agents.len() == 0 ==> contains_text(mod_file_text(agents), lines_open(kind) + lines_close(kind)),
        agents.len() > 0 ==> contains_text(mod_file_text(agents), lines_open(kind) + agent_line(kind, agents[0])),
        agents.len() > 0 ==> contains_text(mod_file_text(agents), agent_line(kind, agents.last()) + lines_close(kind)),
        forall|k: int|
            0 <= k < agents.len() - 1 ==> contains_text(
                mod_file_text(agents),
                #[trigger] agent_line(kind, agents[k]) + agent_line(kind, agents[k + 1]),
            ),
{
    let d = module_lines(ModuleLine::Declaration, agents);
    let m = module_lines(ModuleLine::Metadata, agents);
    let e = module_lines(ModuleLine::Entry, agents);
    let o0 = lines_open(ModuleLine::Declaration);
    let c0 = lines_close(ModuleLine::Declaration);
    let o1 = lines_open(ModuleLine::Metadata);
    let c1 = lines_close(ModuleLine::Metadata);
    let o2 = lines_open(ModuleLine::Entry);
    let c2 = lines_close(ModuleLine::Entry);
    let t = mod_file_text(agents);
    assert(t == o0 + d + c0 + o1 + m + c1 + o2 + e + c2);
    match kind {
        ModuleLine::Declaration => {
            let post = c0 + o1 + m + c1 + o2 + e + c2;
            assert(t =~= o0 + d + post);
            assert(o0.subrange(0, o0.len() as int) =~= o0);
            assert(post.subrange(0, c0.len() as int) =~= c0);
            lemma_lines_block(kind, agents, o0, post);
        },
        ModuleLine::Metadata => {
            let pre = o0 + d + c0 + o1;
            let post = c1 + o2 + e + c2;
            assert(t =~= pre + m + post);
            assert(pre.subrange(pre.len() - o1.len(), pre.len() as int) =~= o1);
            assert(post.subrange(0, c1.len() as int) =~= c1);
            lemma_lines_block(kind, agents, pre, post);
        },
        ModuleLine::Entry => {
            let pre = o0 + d + c0 + o1 + m + c1 + o2;
            let post = c2;
            assert(t =~= pre + e + post);
            assert(pre.subrange(pre.len() - o2.len(), pre.len() as int) =~= o2);
            assert(post.subrange(0, c2.len() as int) =~= c2);
            lemma_lines_block(kind, agents, pre, post);
        },
    }
}

/// Appends the lines of kind `kind` for every agent of `agents` to `out`.
fn push_module_lines(out: &mut String, kind: ModuleLine, agents: &Vec<ParsedAgent>)
    ensures
        final(out)@ == old(out)@ + module_lines(kind, agents@),
{
    let ghost lines = agents@.map_values(
        |a: ParsedAgent| module_line(kind, hyphens_to_underscores(a.name@)),
    );
    let ghost start = out@;
    let mut i: usize = 0;
    while i < agents.len()
        invariant
            i <= agents@.len(),
            lines == agents@.map_values(
                |a: ParsedAgent| module_line(kind, hyphens_to_underscores(a.name@)),
            ),
            out@ == start + flatten(lines.take(i as int)),
        decreases agents@.len() - i,
    {
        assert(lines.take(i + 1).drop_last() =~= lines.take(i as int));
        let m = replace_hyphens(agents[i].name.as_str());
        let ghost prev = out@;
        match kind {
            ModuleLine::Declaration => {
                out.append("pub mod ");
                out.append(m.as_str());
                out.append(";\n");
            },
            ModuleLine::Metadata => {
                out.append("        ");
                out.append(m.as_str());
                out.append("::metadata(),\n");
            },
            ModuleLine::Entry => {
                out.append("        (");
                out.append(m.as_str());
                out.append("::metadata(), ");
                out.append(m.as_str());
                out.append("::SYSTEM_PROMPT, ");
                out.append(m.as_str());
                out.append("::suggested_params(), ");
                out.append(m.as_str());
                out.append("::suggested_config()),\n");
            },
        }
        assert(out@ =~= prev + lines[i as int]);
        assert(out@ =~= start + flatten(lines.take(i + 1)));
        i = i + 1;
    }
    assert(lines.take(i as int) =~= lines);
}

/// The module file that declares the module of every agent of `agents` and lists them.
pub fn generate_mod_file(agents: &Vec<ParsedAgent>) -> (r: String)
    ensures
        r@ == mod_file_text(agents@),
{
    let mut out = String::from_str("// Agent modules, one per agent file.\n");
    push_module_lines(&mut out, ModuleLine::Declaration, agents);
    out.append("\nuse bmad_types::{AgentMetadata, GenerationParams, SuggestedConfig};\n\n");
    out.append("pub fn all_agents() -> Vec<AgentMetadata> {\n    vec![\n");
    push_module_lines(&mut out, ModuleLine::Metadata, agents);
    out.append("    ]\n}\n\n");
    out.append(
        "pub fn all_agent_entries() -> Vec<(AgentMetadata, &'static str, Option<GenerationParams>, Option<SuggestedConfig>)> {\n    vec![\n",
    );
    push_module_lines(&mut out, ModuleLine::Entry, agents);
    out.append("    ]\n}\n");
    out
}

/// Whether the file named `file_name` in the output directory is a Rust module,
/// which a new conversion replaces: its extension is `rs`.
pub fn is_module_file_name(file_name: &str) -> (r: bool)
    ensures
        r == (extension(file_name@) == Some("rs"@)),
{
    match extension_of(file_name) {
        Some(ext) => crate::text::str_eq(ext.as_str(), "rs"),
        None => false,
    }
}

/// A file that a conversion writes into its output directory.
#[derive(Debug)]
pub struct OutputFile {
    pub file_name: String,
    pub content: String,
}

/// The name and text of the `i`-th file that a conversion of `agents` stamped with
/// `timestamp` writes: the module of each agent in turn, then the module file.
pub open spec fn planned_file(agents: Seq<ParsedAgent>, timestamp: Seq<char>, i: int) -> (Seq<char>, Seq<char>) {
    if i < agents.len() {
        (hyphens_to_underscores(agents[i].name@) + ".rs"@, agent_file_text(agents[i], timestamp))
    } else {
        ("mod.rs"@, mod_file_text(agents))
    }
}

/// The file a conversion writes for the `k`-th agent is named after that
/// agent's module and holds that agent's metadata; the module file comes last,
/// after one file per agent.
pub proof fn lemma_planned_files_pair_names_with_agents(agents: Seq<ParsedAgent>, timestamp: Seq<char>, k: int)
    requires
        0 <= k <= agents.len(),
    ensures
        k < agents.len() ==> {
            &&& planned_file(agents, timestamp, k).0 == hyphens_to_underscores(agents[k].name@) + ".rs"@
            &&& contains_text(planned_file(agents, timestamp, k).1, field_line("name"@, agents[k].name@))
            &&& contains_text(planned_file(agents, timestamp, k).1, field_line("executor_name"@, agents[k].executor_name@))
        },
        k == agents.len() ==> planned_file(agents, timestamp, k) == ("mod.rs"@, mod_file_text(agents)),
{
    if k < agents.len() {
        lemma_agent_file_fields(agents[k], timestamp);
    }
}

/// The files that a conversion of `agents` stamped with `timestamp` writes, in
/// the order it writes them (a later file replaces an earlier one of the same name).
pub fn output_files(agents: &Vec<ParsedAgent>, timestamp: &str) -> (r: Vec<OutputFile>)
    ensures
        r@.len() == agents@.len() + 1,
        forall|i: int|
            0 <= i < r@.len() ==> (#[trigger] r@[i]).file_name@ == planned_file(agents@, timestamp@, i).0
                && r@[i].content@ == planned_file(agents@, timestamp@, i).1,
{
    let mut files: Vec<OutputFile> = Vec::new();
    let mut i: usize = 0;
    while i < agents.len()
        invariant
            i <= agents@.len(),
            files@.len() == i,
            forall|k: int|
                0 <= k < i ==> (#[trigger] files@[k]).file_name@ == planned_file(agents@, timestamp@, k).0
                    && files@[k].content@ == planned_file(agents@, timestamp@, k).1,
        decreases agents@.len() - i,
    {
        let file_name = agent_file_name(agents[i].name.as_str());
        let content = generate_agent_file(&agents[i], timestamp);
        let ghost before = files@;
        files.push(OutputFile { file_name, content });
        assert forall|k: int| 0 <= k < i + 1 implies (#[trigger] files@[k]).file_name@ == planned_file(
            agents@,
            timestamp@,
            k,
        ).0 && files@[k].content@ == planned_file(agents@, timestamp@, k).1 by {
            if k < i {
                assert(files@[k] == before[k]);
            }
        }
        i = i + 1;
    }
    files.push(OutputFile { file_name: String::from_str("mod.rs"), content: generate_mod_file(agents) });
    proof {
        reveal_strlit("mod.rs");
    }
    files
}

/// A decimal digit.
pub open spec fn is_digit(c: char) -> bool {
    '0' <= c && c <= '9'
}

/// `s` is made of decimal digits only.
pub open spec fn all_digits(s: Seq<char>) -> bool {
    forall|i: int| 0 <= i < s.len() ==> is_digit(#[trigger] s[i])
}

/// A year as RFC 3339 (and ISO 8601) writes it: four digits, or, outside the
/// years 0 to 9999, a sign and at least four digits.
pub open spec fn is_year_text(y: Seq<char>) -> bool {
    ||| (y.len() == 4 && all_digits(y))
    ||| (y.len() >= 5 && (y[0] == '+' || y[0] == '-') && all_digits(y.skip(1)))
}

/// The part of an RFC 3339 date and time between the year and the fraction of
/// a second: `-MM-DDTHH:MM:SS`.
pub open spec fn is_date_time_text(m: Seq<char>) -> bool {
    &&& m.len() == 15
    &&& m[0] == '-' && is_digit(m[1]) && is_digit(m[2])
    &&& m[3] == '-' && is_digit(m[4]) && is_digit(m[5])
    &&& m[6] == 'T' && is_digit(m[7]) && is_digit(m[8])
    &&& m[9] == ':' && is_digit(m[10]) && is_digit(m[11])
    &&& m[12] == ':' && is_digit(m[13]) && is_digit(m[14])
}

/// A fraction of a second: nothing, or `.` and three, six or nine digits.
pub open spec fn is_fraction_text(f: Seq<char>) -> bool {
    ||| f.len() == 0
    ||| (f[0] == '.' && (f.len() == 4 || f.len() == 7 || f.len() == 10) && all_digits(f.skip(1)))
}

/// An RFC 3339 date and time in UTC as `DateTime::to_rfc3339` writes it:
/// `<year>-MM-DDTHH:MM:SS<fraction>+00:00`.
pub open spec fn is_rfc3339_utc(s: Seq<char>) -> bool {
    exists|year: Seq<char>, middle: Seq<char>, fraction: Seq<char>|
        #![trigger is_year_text(year), is_date_time_text(middle), is_fraction_text(fraction)]
        {
            &&& s == year + middle + fraction + "+00:00"@
            &&& is_year_text(year)
            &&& is_date_time_text(middle)
            &&& is_fraction_text(fraction)
        }
}

/// The current UTC time in RFC 3339 form, e.g. `2024-01-01T12:00:00.500+00:00`.
///
/// Trusted: `std::time::SystemTime::now`, converted by chrono's
/// `From<SystemTime> for DateTime<Utc>` (which takes times before 1970 as well)
/// and written by `DateTime::to_rfc3339`. The answer is the machine's clock, so
/// the contract states only what holds of every answer: its RFC 3339 shape in
/// UTC. The conversion unwraps chrono's range of about 262,000 years around
/// year 0, which a system clock (on Linux bounded by the year 2262) stays within.
#[verifier::external_body]
fn utc_now_rfc3339() -> (r: String)
    ensures
        is_rfc3339_utc(r@),
{
    chrono::DateTime::<chrono::Utc>::from(std::time::SystemTime::now()).to_rfc3339()
}

/// The files of a conversion of `agents` stamped with the current UTC time, and
/// that stamp (see `output_files`).
pub fn stamped_output_files(agents: &Vec<ParsedAgent>) -> (r: (String, Vec<OutputFile>))
    ensures
        is_rfc3339_utc(r.0@),
        r.1@.len() == agents@.len() + 1,
        forall|i: int|
            0 <= i < r.1@.len() ==> (#[trigger] r.1@[i]).file_name@ == planned_file(agents@, r.0@, i).0
                && r.1@[i].content@ == planned_file(agents@, r.0@, i).1,
{
    let timestamp = utc_now_rfc3339();
    let files = output_files(agents, timestamp.as_str());
    (timestamp, files)
}

} // verus!
