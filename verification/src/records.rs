//! The machine records of the data verbs: one compact JSON object and a newline each, keys in
//! sorted order, and every list wrapped under a named key. Rows arrive already shaped, as the
//! records their own verbs render.
use vstd::prelude::*;
use crate::paths::XdgRoots;
use crate::render::json_or_null;
use crate::text::{dec, joined, json_quoted, json_string, push_decimal, texts};
use crate::trim::{reclaimed_sum, trim_total, MemoryTrimReading};
use crate::views::join_texts;

verus! {

/// A JSON array of already-rendered values.
pub open spec fn json_list(items: Seq<Seq<char>>) -> Seq<char> {
    "["@ + joined(items, ","@) + "]"@
}

/// A JSON array of strings.
pub open spec fn string_list(items: Seq<Seq<char>>) -> Seq<char> {
    json_list(items.map_values(|t: Seq<char>| json_quoted(t)))
}

fn list_of(items: &Vec<String>) -> (text: String)
    ensures
        text@ == json_list(texts(items@)),
{
    let inner = join_texts(items, ",");
    let mut text = String::new();
    text.append("[");
    text.append(inner.as_str());
    text.append("]");
    text
}

pub(crate) fn strings_of(items: &Vec<String>) -> (text: String)
    ensures
        text@ == string_list(texts(items@)),
{
    let mut quoted: Vec<String> = Vec::new();
    let mut i: usize = 0;
    while i < items.len()
        invariant
            i <= items.len(),
            texts(quoted@) == texts(items@).subrange(0, i as int).map_values(|t: Seq<char>| json_quoted(t)),
        decreases items.len() - i,
    {
        let ghost before = quoted@;
        quoted.push(json_string(items[i].as_str()));
        assert(texts(quoted@) =~= texts(before).push(json_quoted(items@[i as int]@)));
        assert(texts(items@).subrange(0, i + 1).map_values(|t: Seq<char>| json_quoted(t)) =~= texts(items@).subrange(0, i as int).map_values(|t: Seq<char>| json_quoted(t)).push(json_quoted(items@[i as int]@)));
        i = i + 1;
    }
    assert(texts(items@).subrange(0, items@.len() as int) =~= texts(items@));
    list_of(&quoted)
}

/// `viv config --json`: the binding and every path it implies.
pub open spec fn binding_record(manifest: Seq<char>, source: Seq<char>, roots: XdgRoots, flake: Seq<char>, lock: Seq<char>) -> Seq<char> {
    "{\"manifest\":"@ + json_quoted(manifest) + ",\"paths\":{\"cache\":"@ + json_quoted(roots.cache@) + ",\"config\":"@
        + json_quoted(roots.config@) + ",\"data\":"@ + json_quoted(roots.data@) + ",\"flake\":"@ + json_quoted(flake)
        + ",\"lock\":"@ + json_quoted(lock) + ",\"state\":"@ + json_quoted(roots.state@) + "},\"source\":"@
        + json_quoted(source) + "}\n"@
}

pub fn binding_json(manifest: &str, source: &str, roots: &XdgRoots, flake: &str, lock: &str) -> (text: String)
    ensures
        text@ == binding_record(manifest@, source@, *roots, flake@, lock@),
{
    let mut text = String::new();
    text.append("{\"manifest\":");
    text.append(json_string(manifest).as_str());
    text.append(",\"paths\":{\"cache\":");
    text.append(json_string(roots.cache.as_str()).as_str());
    text.append(",\"config\":");
    text.append(json_string(roots.config.as_str()).as_str());
    text.append(",\"data\":");
    text.append(json_string(roots.data.as_str()).as_str());
    text.append(",\"flake\":");
    text.append(json_string(flake).as_str());
    text.append(",\"lock\":");
    text.append(json_string(lock).as_str());
    text.append(",\"state\":");
    text.append(json_string(roots.state.as_str()).as_str());
    text.append("},\"source\":");
    text.append(json_string(source).as_str());
    text.append("}\n");
    text
}

/// A list of records under one named key.
pub open spec fn wrapped(key: Seq<char>, rows: Seq<Seq<char>>) -> Seq<char> {
    "{\""@ + key + "\":"@ + json_list(rows) + "}\n"@
}

fn wrap(key: &str, rows: &Vec<String>) -> (text: String)
    ensures
        text@ == wrapped(key@, texts(rows@)),
{
    let mut text = String::new();
    text.append("{\"");
    text.append(key);
    text.append("\":");
    text.append(list_of(rows).as_str());
    text.append("}\n");
    text
}

/// `viv volume list --json`.
pub fn volume_list_json(rows: &Vec<String>) -> (text: String)
    ensures
        text@ == wrapped("volumes"@, texts(rows@)),
{
    wrap("volumes", rows)
}

/// `viv generations list --json`.
pub fn generations_list_json(rows: &Vec<String>) -> (text: String)
    ensures
        text@ == wrapped("generations"@, texts(rows@)),
{
    wrap("generations", rows)
}

/// `viv stop --all --json`: the acted-on sandboxes under the fleet's key.
pub fn stop_all_json(rows: &Vec<String>) -> (text: String)
    ensures
        text@ == wrapped("projects"@, texts(rows@)),
{
    wrap("projects", rows)
}

/// `viv volume prune --json`: the rows removed, and what that reclaimed.
pub open spec fn volume_prune_record(rows: Seq<Seq<char>>, reclaimed: u64) -> Seq<char> {
    "{\"reclaimed_bytes\":"@ + dec(reclaimed as nat) + ",\"volumes\":"@ + json_list(rows) + "}\n"@
}

pub fn volume_prune_json(rows: &Vec<String>, reclaimed_bytes: u64) -> (text: String)
    ensures
        text@ == volume_prune_record(texts(rows@), reclaimed_bytes),
{
    let mut text = String::new();
    text.append("{\"reclaimed_bytes\":");
    push_decimal(&mut text, reclaimed_bytes);
    text.append(",\"volumes\":");
    text.append(list_of(rows).as_str());
    text.append("}\n");
    text
}

/// `viv generations prune --json`: the rows unlinked, and how many stayed.
pub open spec fn generations_prune_record(rows: Seq<Seq<char>>, kept: u64) -> Seq<char> {
    "{\"generations\":"@ + json_list(rows) + ",\"kept\":"@ + dec(kept as nat) + "}\n"@
}

pub fn generations_prune_json(rows: &Vec<String>, kept: u64) -> (text: String)
    ensures
        text@ == generations_prune_record(texts(rows@), kept),
{
    let mut text = String::new();
    text.append("{\"generations\":");
    text.append(list_of(rows).as_str());
    text.append(",\"kept\":");
    push_decimal(&mut text, kept);
    text.append("}\n");
    text
}

/// `viv generations activate`/`rollback` `--json`: what moved, and from where.
pub open spec fn switch_record(action: Seq<char>, current: u64, previous: Option<u64>) -> Seq<char> {
    "{\"action\":"@ + json_quoted(action) + ",\"current\":"@ + dec(current as nat) + ",\"previous\":"@ + (match previous {
        Some(p) => dec(p as nat),
        None => "null"@,
    }) + "}\n"@
}

pub fn generations_switch_json(action: &str, current: u64, previous: Option<u64>) -> (text: String)
    ensures
        text@ == switch_record(action@, current, previous),
{
    let mut text = String::new();
    text.append("{\"action\":");
    text.append(json_string(action).as_str());
    text.append(",\"current\":");
    push_decimal(&mut text, current);
    text.append(",\"previous\":");
    match previous {
        Some(p) => push_decimal(&mut text, p),
        None => text.append("null"),
    }
    text.append("}\n");
    text
}

/// `viv update --json`: the lock written and one row per reported input.
pub open spec fn update_record(manifest: Seq<char>, lock: Seq<char>, rows: Seq<Seq<char>>) -> Seq<char> {
    "{\"inputs\":"@ + json_list(rows) + ",\"lock\":"@ + json_quoted(lock) + ",\"manifest\":"@ + json_quoted(manifest) + "}\n"@
}

pub fn update_json(manifest: &str, lock: &str, rows: &Vec<String>) -> (text: String)
    ensures
        text@ == update_record(manifest@, lock@, texts(rows@)),
{
    let mut text = String::new();
    text.append("{\"inputs\":");
    text.append(list_of(rows).as_str());
    text.append(",\"lock\":");
    text.append(json_string(lock).as_str());
    text.append(",\"manifest\":");
    text.append(json_string(manifest).as_str());
    text.append("}\n");
    text
}

/// `viv gc --json`: the collector's own accounting line, relayed.
pub fn gc_json(summary: Option<&str>) -> (text: String)
    ensures
        text@ == "{\"summary\":"@ + json_or_null(match summary {
            Some(s) => Some(s@),
            None => None,
        }) + "}\n"@,
{
    let mut text = String::new();
    text.append("{\"summary\":");
    match summary {
        Some(s) => text.append(json_string(s).as_str()),
        None => text.append("null"),
    }
    text.append("}\n");
    text
}

/// `viv destroy --json`: the removal plan as executed, beside what it spared.
pub open spec fn destroy_record(manifest: Seq<char>, removed: Seq<Seq<char>>, spared: Seq<Seq<char>>, volumes_kept: bool) -> Seq<char> {
    "{\"manifest\":"@ + json_quoted(manifest) + ",\"removed\":"@ + string_list(removed) + ",\"spared\":"@
        + string_list(spared) + ",\"volumes_kept\":"@ + (if volumes_kept {
        "true"@
    } else {
        "false"@
    }) + "}\n"@
}

pub fn destroy_json(manifest: &str, removed: &Vec<String>, spared: &Vec<String>, volumes_kept: bool) -> (text: String)
    ensures
        text@ == destroy_record(manifest@, texts(removed@), texts(spared@), volumes_kept),
{
    let mut text = String::new();
    text.append("{\"manifest\":");
    text.append(json_string(manifest).as_str());
    text.append(",\"removed\":");
    text.append(strings_of(removed).as_str());
    text.append(",\"spared\":");
    text.append(strings_of(spared).as_str());
    text.append(",\"volumes_kept\":");
    if volumes_kept {
        text.append("true");
    } else {
        text.append("false");
    }
    text.append("}\n");
    text
}

/// `viv status -g --json`: the fleet under its key beside the host's own reading.
pub open spec fn fleet_record(projects: Seq<Seq<char>>, host: Seq<char>) -> Seq<char> {
    "{\"host\":"@ + host + ",\"projects\":"@ + json_list(projects) + "}\n"@
}

pub fn fleet_json(projects: &Vec<String>, host: &str) -> (text: String)
    ensures
        text@ == fleet_record(texts(projects@), host@),
{
    let mut text = String::new();
    text.append("{\"host\":");
    text.append(host);
    text.append(",\"projects\":");
    text.append(list_of(projects).as_str());
    text.append("}\n");
    text
}

/// What a memory trim got back, floored at zero.
pub open spec fn reclaimed(r: MemoryTrimReading) -> nat {
    if r.before >= r.after {
        (r.before - r.after) as nat
    } else {
        0
    }
}

/// The measured fields of a memory trim, in key order.
pub open spec fn measured(r: MemoryTrimReading) -> Seq<char> {
    "\"mem_used_after_bytes\":"@ + dec(r.after as nat) + ",\"mem_used_before_bytes\":"@ + dec(r.before as nat)
        + ",\"reclaimed_bytes\":"@ + dec(reclaimed(r)) + ",\"target_mib\":"@ + dec(r.target_mib as nat)
}

/// The measured object of a memory trim.
pub open spec fn memory_trim_object(r: MemoryTrimReading) -> Seq<char> {
    "{"@ + measured(r) + "}"@
}

fn measured_fields(r: &MemoryTrimReading) -> (text: String)
    ensures
        text@ == measured(*r),
{
    let back = if r.before >= r.after {
        r.before - r.after
    } else {
        0
    };
    let mut text = String::new();
    text.append("\"mem_used_after_bytes\":");
    push_decimal(&mut text, r.after);
    text.append(",\"mem_used_before_bytes\":");
    push_decimal(&mut text, r.before);
    text.append(",\"reclaimed_bytes\":");
    push_decimal(&mut text, back);
    text.append(",\"target_mib\":");
    push_decimal(&mut text, r.target_mib);
    text
}

/// The measured object alone, as `viv trim` nests it.
pub fn memory_trim_record(r: &MemoryTrimReading) -> (text: String)
    ensures
        text@ == memory_trim_object(*r),
{
    let mut text = String::new();
    text.append("{");
    text.append(measured_fields(r).as_str());
    text.append("}");
    text
}

/// `viv memory trim --json`: the sandbox key, then the measured fields.
pub fn memory_trim_json(manifest: &str, r: &MemoryTrimReading) -> (text: String)
    ensures
        text@ == "{\"manifest\":"@ + json_quoted(manifest@) + ","@ + measured(*r) + "}\n"@,
{
    let mut text = String::new();
    text.append("{\"manifest\":");
    text.append(json_string(manifest).as_str());
    text.append(",");
    text.append(measured_fields(r).as_str());
    text.append("}\n");
    text
}

/// One trimmed volume: its rendered row, and the allocation before and after the trim.
pub struct TrimmedVolume {
    pub record: String,
    pub before: u64,
    pub after: u64,
}

/// Each volume's allocation before and after.
pub open spec fn trim_figures(rows: Seq<TrimmedVolume>) -> Seq<(u64, u64)> {
    rows.map_values(|r: TrimmedVolume| (r.before, r.after))
}

/// The rendered rows.
pub open spec fn trim_rows(rows: Seq<TrimmedVolume>) -> Seq<Seq<char>> {
    rows.map_values(|r: TrimmedVolume| r.record@)
}

/// The volume trim object: the sum of the rows' reclaimed figures beside the rows.
pub open spec fn volume_trim_object(rows: Seq<TrimmedVolume>) -> Seq<char> {
    "{\"reclaimed_bytes\":"@ + dec(reclaimed_sum(trim_figures(rows))) + ",\"volumes\":"@ + json_list(trim_rows(rows)) + "}"@
}

/// The object `viv volume trim --json` prints and `viv trim` nests under `disk`.
pub fn volume_trim_record(rows: &Vec<TrimmedVolume>) -> (text: String)
    requires
        reclaimed_sum(trim_figures(rows@)) <= u64::MAX,
    ensures
        text@ == volume_trim_object(rows@),
{
    let mut figures: Vec<(u64, u64)> = Vec::new();
    let mut records: Vec<String> = Vec::new();
    let mut i: usize = 0;
    while i < rows.len()
        invariant
            i <= rows.len(),
            figures@ == trim_figures(rows@).subrange(0, i as int),
            texts(records@) == trim_rows(rows@).subrange(0, i as int),
        decreases rows.len() - i,
    {
        let ghost before = records@;
        figures.push((rows[i].before, rows[i].after));
        records.push(rows[i].record.clone());
        assert(texts(records@) =~= texts(before).push(rows@[i as int].record@));
        assert(figures@ =~= trim_figures(rows@).subrange(0, i + 1));
        assert(texts(records@) =~= trim_rows(rows@).subrange(0, i + 1));
        i = i + 1;
    }
    assert(figures@ =~= trim_figures(rows@));
    assert(texts(records@) =~= trim_rows(rows@));
    let total = trim_total(&figures);
    let mut text = String::new();
    text.append("{\"reclaimed_bytes\":");
    push_decimal(&mut text, total);
    text.append(",\"volumes\":");
    text.append(list_of(&records).as_str());
    text.append("}");
    text
}

/// `viv volume trim --json`.
pub fn volume_trim_json(rows: &Vec<TrimmedVolume>) -> (text: String)
    requires
        reclaimed_sum(trim_figures(rows@)) <= u64::MAX,
    ensures
        text@ == volume_trim_object(rows@) + "\n"@,
{
    let mut text = volume_trim_record(rows);
    text.append("\n");
    text
}

/// `viv trim --json`: each resource's own record, the sandbox key beside them, and no total.
pub fn trim_json(manifest: &str, memory: &MemoryTrimReading, rows: &Vec<TrimmedVolume>) -> (text: String)
    requires
        reclaimed_sum(trim_figures(rows@)) <= u64::MAX,
    ensures
        text@ == "{\"disk\":"@ + volume_trim_object(rows@) + ",\"manifest\":"@ + json_quoted(manifest@)
            + ",\"memory\":"@ + memory_trim_object(*memory) + "}\n"@,
{
    let mut text = String::new();
    text.append("{\"disk\":");
    text.append(volume_trim_record(rows).as_str());
    text.append(",\"manifest\":");
    text.append(json_string(manifest).as_str());
    text.append(",\"memory\":");
    text.append(memory_trim_record(memory).as_str());
    text.append("}\n");
    text
}

} // verus!
