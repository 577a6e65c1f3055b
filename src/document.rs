use crate::types::{
    build_targets, lemma_none_enabled_yields_nothing, observations_view, scrape_enabled, records_view, targets_spec, ContainerObservation,
    ObservationModel, PromConfig, TargetModel,
};
use vstd::prelude::*;
use vstd::string::*;

verus! {

/// A lowercase hexadecimal digit, for `0 <= n < 16`.
pub open spec fn hex_digit(n: u32) -> char {
    seq!['0', '1', '2', '3', '4', '5', '6', '7', '8', '9', 'a', 'b', 'c', 'd', 'e', 'f'][n as int]
}

/// How one character is written inside a JSON string literal: `"` and `\`
/// behind a backslash, the usual short escapes for backspace, tab, line feed,
/// form feed and carriage return, other control characters as `\u00xx` in
/// lowercase hex, and every other character as it is.
pub open spec fn escape_char(c: char) -> Seq<char> {
    if c == '"' {
        seq!['\\', '"']
    } else if c == '\\' {
        seq!['\\', '\\']
    } else if c == '\x08' {
        seq!['\\', 'b']
    } else if c == '\t' {
        seq!['\\', 't']
    } else if c == '\n' {
        seq!['\\', 'n']
    } else if c == '\x0c' {
        seq!['\\', 'f']
    } else if c == '\r' {
        seq!['\\', 'r']
    } else if (c as u32) < 0x20 {
        seq!['\\', 'u', '0', '0', hex_digit((c as u32) / 16), hex_digit((c as u32) % 16)]
    } else {
        seq![c]
    }
}

/// The characters of `s`, each escaped.
pub open spec fn escape_chars(s: Seq<char>) -> Seq<char>
    decreases s.len(),
{
    if s.len() == 0 {
        Seq::empty()
    } else {
        escape_chars(s.drop_last()) + escape_char(s.last())
    }
}

/// The JSON string literal that encodes `s`: its escaped characters between quotes.
pub open spec fn json_string_of(s: Seq<char>) -> Seq<char> {
    seq!['"'] + escape_chars(s) + seq!['"']
}

/// Relies on `serde_json::to_string` applied to a `str`: it writes the string
/// as one JSON string literal (`serialize_str`, `format_escaped_str`), escaping
/// by its fixed table as `escape_char` states. Its documented failures are a
/// `Serialize` impl that fails and a map with non-string keys; a `str` has
/// neither, and the writer is a `Vec<u8>`, which never fails, so the error arm
/// is never taken.
#[verifier::external_body]
fn json_quote(s: &str) -> (r: String)
    ensures
        r@ == json_string_of(s@),
{
    serde_json::to_string(s).unwrap_or_default()
}

/// A list of JSON string literals, separated by commas.
pub open spec fn json_strings(ss: Seq<Seq<char>>) -> Seq<char>
    decreases ss.len(),
{
    if ss.len() == 0 {
        Seq::empty()
    } else if ss.len() == 1 {
        json_string_of(ss[0])
    } else {
        json_strings(ss.drop_last()) + ","@ + json_string_of(ss.last())
    }
}

/// One record as a compact JSON object, fields in their fixed order.
pub open spec fn record_json(t: TargetModel) -> Seq<char> {
    "{\"labels\":{\"job\":"@ + json_string_of(t.job) + ",\"name\":"@ + json_string_of(t.name)
        + ",\"id\":"@ + json_string_of(t.id) + ",\"scheme\":"@ + json_string_of(t.scheme)
        + ",\"metrics_path\":"@ + json_string_of(t.metrics_path)
        + ",\"com_docker_compose_service\":"@ + json_string_of(t.compose_service)
        + "},\"targets\":["@ + json_strings(t.targets) + "]}"@
}

/// Records as JSON objects, separated by commas.
pub open spec fn records_json(ts: Seq<TargetModel>) -> Seq<char>
    decreases ts.len(),
{
    if ts.len() == 0 {
        Seq::empty()
    } else if ts.len() == 1 {
        record_json(ts[0])
    } else {
        records_json(ts.drop_last()) + ","@ + record_json(ts.last())
    }
}

/// The published document: a JSON array of the records, in order.
pub open spec fn document_of(ts: Seq<TargetModel>) -> Seq<char> {
    "["@ + records_json(ts) + "]"@
}

/// Appends the JSON string literal of `s` to `out`.
fn push_json_string(out: &mut String, s: &String)
    ensures
        final(out)@ == old(out)@ + json_string_of(s@),
{
    let q = json_quote(s.as_str());
    out.append(q.as_str());
}

/// Appends the targets of a record, comma separated, to `out`.
fn push_targets(out: &mut String, targets: &Vec<String>)
    ensures
        final(out)@ == old(out)@ + json_strings(targets@.map_values(|t: String| t@)),
{
    let ghost start = out@;
    let ghost ts = targets@.map_values(|t: String| t@);
    let mut i: usize = 0;
    assert(ts.take(0) =~= Seq::<Seq<char>>::empty());
    assert(out@ =~= start + json_strings(ts.take(0)));
    while i < targets.len()
        invariant
            i <= targets@.len(),
            ts == targets@.map_values(|t: String| t@),
            out@ == start + json_strings(ts.take(i as int)),
        decreases targets@.len() - i,
    {
        assert(ts.take(i + 1).drop_last() =~= ts.take(i as int));
        if i > 0 {
            out.append(",");
        }
        push_json_string(out, &targets[i]);
        proof {
            if i == 0 {
                assert(ts.take(1) =~= seq![ts[0]]);
            }
        }
        assert(out@ =~= start + json_strings(ts.take(i + 1)));
        i = i + 1;
    }
    assert(ts.take(i as int) =~= ts);
}

/// Appends one record as a JSON object to `out`.
fn push_record(out: &mut String, p: &PromConfig)
    ensures
        final(out)@ == old(out)@ + record_json(p@),
{
    let ghost start = out@;
    out.append("{\"labels\":{\"job\":");
    push_json_string(out, &p.labels.job);
    out.append(",\"name\":");
    push_json_string(out, &p.labels.name);
    out.append(",\"id\":");
    push_json_string(out, &p.labels.id);
    out.append(",\"scheme\":");
    push_json_string(out, &p.labels.scheme);
    out.append(",\"metrics_path\":");
    push_json_string(out, &p.labels.metrics_path);
    out.append(",\"com_docker_compose_service\":");
    push_json_string(out, &p.labels.com_docker_compose_service);
    out.append("},\"targets\":[");
    push_targets(out, &p.targets);
    out.append("]}");
    assert(out@ =~= start + record_json(p@));
}

/// Encodes the records, in order, as the published JSON document.
pub fn serialize_targets(records: &Vec<PromConfig>) -> (r: String)
    ensures
        r@ == document_of(records_view(records@)),
{
    let ghost ts = records_view(records@);
    let mut out = String::from_str("[");
    let mut i: usize = 0;
    assert(ts.take(0) =~= Seq::<TargetModel>::empty());
    assert(out@ =~= "["@ + records_json(ts.take(0)));
    while i < records.len()
        invariant
            i <= records@.len(),
            ts == records_view(records@),
            out@ == "["@ + records_json(ts.take(i as int)),
        decreases records@.len() - i,
    {
        assert(ts.take(i + 1).drop_last() =~= ts.take(i as int));
        if i > 0 {
            out.append(",");
        }
        push_record(&mut out, &records[i]);
        proof {
            if i == 0 {
                assert(ts.take(1) =~= seq![ts[0]]);
            }
        }
        assert(out@ =~= "["@ + records_json(ts.take(i + 1)));
        i = i + 1;
    }
    assert(ts.take(i as int) =~= ts);
    out.append("]");
    out
}

/// Resolves the containers and encodes the resulting records as the
/// published document.
pub fn render_targets(containers: &Vec<ContainerObservation>) -> (r: String)
    ensures
        r@ == document_of(targets_spec(observations_view(containers@))),
{
    let records = build_targets(containers);
    serialize_targets(&records)
}

/// The document depends on the containers and their labels alone: the same
/// ordered list always renders to the same characters.
pub proof fn lemma_render_deterministic(a: Seq<ObservationModel>, b: Seq<ObservationModel>)
    requires
        a == b,
    ensures
        document_of(targets_spec(a)) == document_of(targets_spec(b)),
{
}

/// When no container opted in, the document is the empty array `[]`.
pub proof fn lemma_none_enabled_renders_empty(obs: Seq<ObservationModel>)
    requires
        forall|i: int| 0 <= i < obs.len() ==> !scrape_enabled(#[trigger] obs[i].labels),
    ensures
        document_of(targets_spec(obs)) == "[]"@,
{
    lemma_none_enabled_yields_nothing(obs);
    reveal_strlit("[");
    reveal_strlit("]");
    reveal_strlit("[]");
    assert(document_of(targets_spec(obs)) =~= "[]"@);
}

} // verus!
