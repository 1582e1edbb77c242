//! `viv config eval` and `viv config sources`: the merged configuration, and where each value
//! came from.
//!
//! The merge itself belongs to the configuration layer; what reaches these renderers is its
//! analysis as plain values. Every JSON value arrives as the compact text `serde_json` writes for
//! it, and an array of tables also as its elements' fields, so the TOML-shaped view can lay them
//! out one block per element. An absent declaration (`null`, or an empty array) is never printed
//! as a value in TOML, which has no null; the JSON forms keep every key.
use vstd::prelude::*;
use vstd::utf8::encode_utf8;
use crate::text::{has_prefix, strip_prefix, joined, json_quoted, json_string, pad_right, push_padded, texts};
use crate::views::join_texts;
use crate::lifecycle::same_text;

verus! {

/// One merged key as the analysis reports it.
pub struct ValueView {
    /// The dotted key, such as `resources.mem_mib` or `env.EDITOR`.
    pub key: String,
    /// The merged value's JSON text; none when the merge produced no value.
    pub effective: Option<String>,
    /// When the merged value is an array: each element's fields, name and JSON text.
    pub elements: Option<Vec<Vec<(String, String)>>>,
    /// The layer whose declaration won; none for a list, or a key whose merge failed.
    pub winner: Option<String>,
    /// Every layer that declared the key.
    pub contributors: Vec<Contributor>,
}

/// One layer's declaration of a key.
pub struct Contributor {
    pub layer: String,
    /// The kind of layer, as the configuration layer spells it.
    pub kind: String,
    /// The layer's priority, as JSON text.
    pub priority: String,
    /// The declared value, as JSON text.
    pub value: String,
    pub winner: bool,
}

/// Two or more layers that cannot be merged on a key.
pub struct Conflict {
    /// The kind of defect, as the configuration layer spells it.
    pub kind: String,
    pub key: String,
    pub layers: Vec<String>,
}

/// The first view of `key` from position `i` on.
pub open spec fn view_from(values: Seq<ValueView>, key: Seq<char>, i: int) -> Option<ValueView>
    decreases values.len() - i,
{
    if i < 0 || i >= values.len() {
        None
    } else if values[i].key@ == key {
        Some(values[i])
    } else {
        view_from(values, key, i + 1)
    }
}

/// The value a key merged to, when the analysis has the key and a value for it.
pub open spec fn effective_of(values: Seq<ValueView>, key: Seq<char>) -> Option<Seq<char>> {
    match view_from(values, key, 0) {
        Some(v) => match v.effective {
            Some(e) => Some(e@),
            None => None,
        },
        None => None,
    }
}

/// The elements of the array a key merged to, when it merged to one.
pub open spec fn elements_of(values: Seq<ValueView>, key: Seq<char>) -> Option<Seq<Seq<(Seq<char>, Seq<char>)>>> {
    match view_from(values, key, 0) {
        Some(v) => match v.elements {
            Some(e) => Some(e@.map_values(|el: Vec<(String, String)>| fields_of(el@))),
            None => None,
        },
        None => None,
    }
}

/// Some fields by value.
pub open spec fn fields_of(v: Seq<(String, String)>) -> Seq<(Seq<char>, Seq<char>)> {
    v.map_values(|p: (String, String)| (p.0@, p.1@))
}

/// Whether a value is worth printing: an absent declaration, `null` or an empty array, is not.
pub open spec fn present(value: Seq<char>) -> bool {
    value != "null"@ && value != "[]"@
}

/// The entries of a table that have a value worth printing, in order.
pub open spec fn present_entries(entries: Seq<(Seq<char>, Option<Seq<char>>)>) -> Seq<(Seq<char>, Seq<char>)>
    decreases entries.len(),
{
    if entries.len() == 0 {
        Seq::empty()
    } else {
        let rest = present_entries(entries.drop_last());
        match entries.last().1 {
            Some(v) => if present(v) {
                rest.push((entries.last().0, v))
            } else {
                rest
            },
            None => rest,
        }
    }
}

/// The widest key, in bytes.
pub open spec fn key_width(entries: Seq<(Seq<char>, Seq<char>)>) -> nat
    decreases entries.len(),
{
    if entries.len() == 0 {
        0
    } else {
        let rest = key_width(entries.drop_last());
        let w = encode_utf8(entries.last().0).len();
        if w > rest {
            w
        } else {
            rest
        }
    }
}

/// `key = value` lines, keys padded to `width`.
pub open spec fn assignment_lines(entries: Seq<(Seq<char>, Seq<char>)>, width: nat) -> Seq<char>
    decreases entries.len(),
{
    if entries.len() == 0 {
        Seq::empty()
    } else {
        assignment_lines(entries.drop_last(), width) + pad_right(entries.last().0, width) + " = "@
            + entries.last().1 + "\n"@
    }
}

/// The separating blank line before a block, when something precedes it.
pub open spec fn separated(rendered: Seq<char>) -> Seq<char> {
    if rendered.len() > 0 {
        rendered + "\n"@
    } else {
        rendered
    }
}

/// `rendered` followed by the table `[name]` of the entries worth printing; nothing when none is.
pub open spec fn table_block(rendered: Seq<char>, name: Seq<char>, entries: Seq<(Seq<char>, Option<Seq<char>>)>) -> Seq<char> {
    let shown = present_entries(entries);
    if shown.len() == 0 {
        rendered
    } else {
        separated(rendered) + "["@ + name + "]\n"@ + assignment_lines(shown, key_width(shown))
    }
}

/// The first value of `field` among an element's fields, from position `i` on.
pub open spec fn field_from(element: Seq<(Seq<char>, Seq<char>)>, field: Seq<char>, i: int) -> Option<Seq<char>>
    decreases element.len() - i,
{
    if i < 0 || i >= element.len() {
        None
    } else if element[i].0 == field {
        Some(element[i].1)
    } else {
        field_from(element, field, i + 1)
    }
}

/// The value of `field` in an element.
pub open spec fn field_value(element: Seq<(Seq<char>, Seq<char>)>, field: Seq<char>) -> Option<Seq<char>> {
    field_from(element, field, 0)
}

/// One element's lines: each listed field it has a value worth printing for, in the listed order.
pub open spec fn element_lines(element: Seq<(Seq<char>, Seq<char>)>, fields: Seq<Seq<char>>, width: nat) -> Seq<char>
    decreases fields.len(),
{
    if fields.len() == 0 {
        Seq::empty()
    } else {
        let rest = element_lines(element, fields.drop_last(), width);
        match field_value(element, fields.last()) {
            Some(v) => if present(v) {
                rest + pad_right(fields.last(), width) + " = "@ + v + "\n"@
            } else {
                rest
            },
            None => rest,
        }
    }
}

/// `rendered` followed by one `[[name]]` block per element.
pub open spec fn element_blocks(rendered: Seq<char>, name: Seq<char>, elements: Seq<Seq<(Seq<char>, Seq<char>)>>, fields: Seq<Seq<char>>, width: nat) -> Seq<char>
    decreases elements.len(),
{
    if elements.len() == 0 {
        rendered
    } else {
        separated(element_blocks(rendered, name, elements.drop_last(), fields, width)) + "[["@ + name + "]]\n"@
            + element_lines(elements.last(), fields, width)
    }
}

/// `rendered` followed by the array of tables `name`, when the value is an array.
pub open spec fn array_block(rendered: Seq<char>, name: Seq<char>, elements: Option<Seq<Seq<(Seq<char>, Seq<char>)>>>, fields: Seq<Seq<char>>, width: nat) -> Seq<char> {
    match elements {
        Some(e) => element_blocks(rendered, name, e, fields, width),
        None => rendered,
    }
}

/// The `env.` keys, stripped of the prefix, with their values, in the analysis's order.
pub open spec fn env_entries(values: Seq<ValueView>) -> Seq<(Seq<char>, Option<Seq<char>>)>
    decreases values.len(),
{
    if values.len() == 0 {
        Seq::empty()
    } else {
        let rest = env_entries(values.drop_last());
        let v = values.last();
        if has_prefix(v.key@, "env."@) {
            rest.push((v.key@.subrange("env."@.len() as int, v.key@.len() as int), match v.effective {
                Some(e) => Some(e@),
                None => None,
            }))
        } else {
            rest
        }
    }
}

/// `viv config eval`: the merged configuration in TOML's shape.
pub open spec fn eval_text(values: Seq<ValueView>) -> Seq<char> {
    let e = |k: Seq<char>| effective_of(values, k);
    let r1 = table_block(Seq::empty(), "credentials"@, seq![("agents"@, e("credentials.agents"@))]);
    let r2 = table_block(r1, "resources"@, seq![("mem_mib"@, e("resources.mem_mib"@)), ("vcpu"@, e("resources.vcpu"@))]);
    let r3 = table_block(r2, "sandbox.egress"@, seq![("mode"@, e("sandbox.egress.mode"@)), ("allow"@, e("sandbox.egress.allow"@))]);
    let r4 = table_block(r3, "env"@, env_entries(values));
    let r5 = array_block(r4, "workspaces"@, elements_of(values, "workspaces"@), seq!["source"@], 6);
    let r6 = array_block(r5, "mounts"@, elements_of(values, "mounts"@), seq!["source"@, "target"@, "readonly"@], 8);
    let r7 = array_block(r6, "volumes"@, elements_of(values, "volumes"@), seq!["name"@, "mount"@, "size_gib"@], 8);
    table_block(r7, "volume"@, seq![("size_gib"@, e("volume.size_gib"@)), ("persist"@, e("volume.persist"@))])
}

/// Some optional entries by value.
pub open spec fn opt_pairs(v: Seq<(String, Option<String>)>) -> Seq<(Seq<char>, Option<Seq<char>>)> {
    v.map_values(|p: (String, Option<String>)| (p.0@, match p.1 {
        Some(s) => Some(s@),
        None => None,
    }))
}

fn is_present(value: &str) -> (p: bool)
    ensures
        p == present(value@),
{
    !(same_text(value, "null") || same_text(value, "[]"))
}

fn view_of<'a>(values: &'a Vec<ValueView>, key: &str) -> (r: Option<&'a ValueView>)
    ensures
        match r {
            Some(v) => view_from(values@, key@, 0) == Some(*v),
            None => view_from(values@, key@, 0) is None,
        },
{
    let mut i: usize = 0;
    while i < values.len()
        invariant
            i <= values.len(),
            view_from(values@, key@, 0) == view_from(values@, key@, i as int),
        decreases values.len() - i,
    {
        if same_text(values[i].key.as_str(), key) {
            return Some(&values[i]);
        }
        i = i + 1;
    }
    None
}

fn effective(values: &Vec<ValueView>, key: &str) -> (r: Option<String>)
    ensures
        match r {
            Some(s) => effective_of(values@, key@) == Some(s@),
            None => effective_of(values@, key@) is None,
        },
{
    match view_of(values, key) {
        Some(v) => match &v.effective {
            Some(e) => Some(e.clone()),
            None => None,
        },
        None => None,
    }
}

fn field_of(element: &Vec<(String, String)>, field: &str) -> (r: Option<String>)
    ensures
        match r {
            Some(s) => field_value(fields_of(element@), field@) == Some(s@),
            None => field_value(fields_of(element@), field@) is None,
        },
{
    let ghost f = fields_of(element@);
    let mut i: usize = 0;
    while i < element.len()
        invariant
            i <= element.len(),
            f == fields_of(element@),
            field_from(f, field@, 0) == field_from(f, field@, i as int),
        decreases element.len() - i,
    {
        if same_text(element[i].0.as_str(), field) {
            return Some(element[i].1.clone());
        }
        i = i + 1;
    }
    None
}

/// Appends the table `[name]` of the entries worth printing.
fn push_table(out: &mut String, name: &str, entries: &Vec<(String, Option<String>)>)
    ensures
        final(out)@ == table_block(old(out)@, name@, opt_pairs(entries@)),
{
    let ghost all = opt_pairs(entries@);
    let mut shown: Vec<(String, String)> = Vec::new();
    let mut i: usize = 0;
    while i < entries.len()
        invariant
            i <= entries.len(),
            all == opt_pairs(entries@),
            fields_of(shown@) == present_entries(all.subrange(0, i as int)),
        decreases entries.len() - i,
    {
        assert(all.subrange(0, i + 1).drop_last() =~= all.subrange(0, i as int));
        let (key, value) = &entries[i];
        match value {
            Some(v) => {
                if is_present(v.as_str()) {
                    let ghost before = shown@;
                    shown.push((key.clone(), v.clone()));
                    assert(fields_of(shown@) =~= fields_of(before).push((key@, v@)));
                }
            },
            None => {},
        }
        i = i + 1;
    }
    assert(all.subrange(0, all.len() as int) =~= all);
    let ghost p = fields_of(shown@);
    if shown.len() == 0 {
        return;
    }
    let mut width: usize = 0;
    let mut j: usize = 0;
    while j < shown.len()
        invariant
            j <= shown.len(),
            p == fields_of(shown@),
            width == key_width(p.subrange(0, j as int)),
        decreases shown.len() - j,
    {
        assert(p.subrange(0, j + 1).drop_last() =~= p.subrange(0, j as int));
        let w = shown[j].0.as_str().as_bytes().len();
        if w > width {
            width = w;
        }
        j = j + 1;
    }
    assert(p.subrange(0, p.len() as int) =~= p);
    if out.unicode_len() > 0 {
        out.append("\n");
    }
    out.append("[");
    out.append(name);
    out.append("]\n");
    let ghost head = out@;
    let mut k: usize = 0;
    while k < shown.len()
        invariant
            k <= shown.len(),
            p == fields_of(shown@),
            out@ == head + assignment_lines(p.subrange(0, k as int), width as nat),
        decreases shown.len() - k,
    {
        assert(p.subrange(0, k + 1).drop_last() =~= p.subrange(0, k as int));
        push_padded(out, shown[k].0.as_str(), width);
        out.append(" = ");
        out.append(shown[k].1.as_str());
        out.append("\n");
        k = k + 1;
    }
    assert(p.subrange(0, p.len() as int) =~= p);
}

/// Appends one block per element of an array of tables.
fn push_array(out: &mut String, name: &str, elements: &Option<Vec<Vec<(String, String)>>>, fields: &Vec<&str>, width: usize)
    ensures
        final(out)@ == array_block(old(out)@, name@, match *elements {
            Some(e) => Some(e@.map_values(|el: Vec<(String, String)>| fields_of(el@))),
            None => None,
        }, fields@.map_values(|f: &str| f@), width as nat),
{
    let ghost fs = fields@.map_values(|f: &str| f@);
    match elements {
        None => {},
        Some(es) => {
            let ghost ev = es@.map_values(|el: Vec<(String, String)>| fields_of(el@));
            let ghost start = out@;
            let mut i: usize = 0;
            while i < es.len()
                invariant
                    i <= es.len(),
                    ev == es@.map_values(|el: Vec<(String, String)>| fields_of(el@)),
                    fs == fields@.map_values(|f: &str| f@),
                    out@ == element_blocks(start, name@, ev.subrange(0, i as int), fs, width as nat),
                decreases es.len() - i,
            {
                assert(ev.subrange(0, i + 1).drop_last() =~= ev.subrange(0, i as int));
                if out.unicode_len() > 0 {
                    out.append("\n");
                }
                out.append("[[");
                out.append(name);
                out.append("]]\n");
                let ghost head = out@;
                let element = &es[i];
                assert(ev[i as int] == fields_of(element@));
                let mut k: usize = 0;
                while k < fields.len()
                    invariant
                        k <= fields.len(),
                        fs == fields@.map_values(|f: &str| f@),
                        ev[i as int] == fields_of(element@),
                        out@ == head + element_lines(ev[i as int], fs.subrange(0, k as int), width as nat),
                    decreases fields.len() - k,
                {
                    assert(fs.subrange(0, k + 1).drop_last() =~= fs.subrange(0, k as int));
                    let field = fields[k];
                    match field_of(element, field) {
                        Some(v) => {
                            if is_present(v.as_str()) {
                                push_padded(out, field, width);
                                out.append(" = ");
                                out.append(v.as_str());
                                out.append("\n");
                            }
                        },
                        None => {},
                    }
                    k = k + 1;
                }
                assert(fs.subrange(0, fs.len() as int) =~= fs);
                i = i + 1;
            }
            assert(ev.subrange(0, ev.len() as int) =~= ev);
        },
    }
}

fn entry(key: &str, values: &Vec<ValueView>, full: &str) -> (e: (String, Option<String>))
    ensures
        e.0@ == key@,
        match e.1 {
            Some(s) => effective_of(values@, full@) == Some(s@),
            None => effective_of(values@, full@) is None,
        },
{
    (key.to_owned(), effective(values, full))
}

fn elements(values: &Vec<ValueView>, key: &str) -> (r: Option<Vec<Vec<(String, String)>>>)
    ensures
        match r {
            Some(e) => elements_of(values@, key@) == Some(e@.map_values(|el: Vec<(String, String)>| fields_of(el@))),
            None => elements_of(values@, key@) is None,
        },
{
    match view_of(values, key) {
        Some(v) => match &v.elements {
            Some(e) => {
                let mut copy: Vec<Vec<(String, String)>> = Vec::new();
                let mut i: usize = 0;
                while i < e.len()
                    invariant
                        i <= e.len(),
                        copy@.map_values(|el: Vec<(String, String)>| fields_of(el@))
                            == e@.subrange(0, i as int).map_values(|el: Vec<(String, String)>| fields_of(el@)),
                    decreases e.len() - i,
                {
                    let mut el: Vec<(String, String)> = Vec::new();
                    let mut j: usize = 0;
                    while j < e[i].len()
                        invariant
                            i < e.len(),
                            j <= e@[i as int].len(),
                            fields_of(el@) == fields_of(e@[i as int]@).subrange(0, j as int),
                        decreases e@[i as int].len() - j,
                    {
                        let ghost before = el@;
                        el.push((e[i][j].0.clone(), e[i][j].1.clone()));
                        assert(fields_of(el@) =~= fields_of(before).push((e@[i as int]@[j as int].0@, e@[i as int]@[j as int].1@)));
                        assert(fields_of(e@[i as int]@).subrange(0, j + 1) =~= fields_of(e@[i as int]@).subrange(0, j as int).push((e@[i as int]@[j as int].0@, e@[i as int]@[j as int].1@)));
                        j = j + 1;
                    }
                    assert(fields_of(e@[i as int]@).subrange(0, e@[i as int]@.len() as int) =~= fields_of(e@[i as int]@));
                    let ghost before = copy@;
                    copy.push(el);
                    assert(copy@.map_values(|el: Vec<(String, String)>| fields_of(el@)) =~= before.map_values(|el: Vec<(String, String)>| fields_of(el@)).push(fields_of(e@[i as int]@)));
                    assert(e@.subrange(0, i + 1).map_values(|el: Vec<(String, String)>| fields_of(el@)) =~= e@.subrange(0, i as int).map_values(|el: Vec<(String, String)>| fields_of(el@)).push(fields_of(e@[i as int]@)));
                    i = i + 1;
                }
                assert(e@.subrange(0, e@.len() as int) =~= e@);
                Some(copy)
            },
            None => None,
        },
        None => None,
    }
}

/// `viv config eval`: the merged configuration in TOML's shape, one table or array of tables per
/// section, each key padded to its table's widest, sections with nothing worth printing omitted.
pub fn config_eval_human(values: &Vec<ValueView>) -> (text: String)
    ensures
        text@ == eval_text(values@),
{
    let ghost e = |k: Seq<char>| effective_of(values@, k);
    let mut out = String::new();
    let credentials = vec![entry("agents", values, "credentials.agents")];
    assert(opt_pairs(credentials@) =~= seq![("agents"@, e("credentials.agents"@))]);
    push_table(&mut out, "credentials", &credentials);
    let resources = vec![entry("mem_mib", values, "resources.mem_mib"), entry("vcpu", values, "resources.vcpu")];
    assert(opt_pairs(resources@) =~= seq![("mem_mib"@, e("resources.mem_mib"@)), ("vcpu"@, e("resources.vcpu"@))]);
    push_table(&mut out, "resources", &resources);
    let egress = vec![entry("mode", values, "sandbox.egress.mode"), entry("allow", values, "sandbox.egress.allow")];
    assert(opt_pairs(egress@) =~= seq![("mode"@, e("sandbox.egress.mode"@)), ("allow"@, e("sandbox.egress.allow"@))]);
    push_table(&mut out, "sandbox.egress", &egress);
    let mut environment: Vec<(String, Option<String>)> = Vec::new();
    let mut i: usize = 0;
    while i < values.len()
        invariant
            i <= values.len(),
            opt_pairs(environment@) == env_entries(values@.subrange(0, i as int)),
        decreases values.len() - i,
    {
        assert(values@.subrange(0, i + 1).drop_last() =~= values@.subrange(0, i as int));
        let view = &values[i];
        match strip_prefix(view.key.as_str(), "env.") {
            Some(name) => {
                let value = match &view.effective {
                    Some(v) => Some(v.clone()),
                    None => None,
                };
                let ghost before = environment@;
                environment.push((name.to_owned(), value));
                assert(opt_pairs(environment@) =~= opt_pairs(before).push((name@, match view.effective {
                    Some(s) => Some(s@),
                    None => None,
                })));
            },
            None => {},
        }
        i = i + 1;
    }
    assert(values@.subrange(0, values@.len() as int) =~= values@);
    push_table(&mut out, "env", &environment);
    let workspaces = elements(values, "workspaces");
    let fields = vec!["source"];
    assert(fields@.map_values(|f: &str| f@) =~= seq!["source"@]);
    push_array(&mut out, "workspaces", &workspaces, &fields, 6);
    let mounts = elements(values, "mounts");
    let fields = vec!["source", "target", "readonly"];
    assert(fields@.map_values(|f: &str| f@) =~= seq!["source"@, "target"@, "readonly"@]);
    push_array(&mut out, "mounts", &mounts, &fields, 8);
    let volumes = elements(values, "volumes");
    let fields = vec!["name", "mount", "size_gib"];
    assert(fields@.map_values(|f: &str| f@) =~= seq!["name"@, "mount"@, "size_gib"@]);
    push_array(&mut out, "volumes", &volumes, &fields, 8);
    let volume = vec![entry("size_gib", values, "volume.size_gib"), entry("persist", values, "volume.persist")];
    assert(opt_pairs(volume@) =~= seq![("size_gib"@, e("volume.size_gib"@)), ("persist"@, e("volume.persist"@))]);
    push_table(&mut out, "volume", &volume);
    out
}

/// A JSON array of strings.
pub open spec fn string_array(items: Seq<Seq<char>>) -> Seq<char> {
    "["@ + joined(items.map_values(|t: Seq<char>| json_quoted(t)), ","@) + "]"@
}

/// A JSON array of strings.
fn push_string_array(out: &mut String, items: &Vec<String>)
    ensures
        final(out)@ == old(out)@ + string_array(texts(items@)),
{
    let mut quoted: Vec<String> = Vec::new();
    let mut i: usize = 0;
    while i < items.len()
        invariant
            i <= items.len(),
            texts(quoted@) == texts(items@).subrange(0, i as int).map_values(|t: Seq<char>| json_quoted(t)),
        decreases items.len() - i,
    {
        let ghost before = quoted@;
        quoted.push(json_string(items[i].as_str()));
        assert(texts(quoted@) =~= texts(before).push(json_quoted(items@[i as int]@)));
        assert(texts(items@).subrange(0, i + 1).map_values(|t: Seq<char>| json_quoted(t)) =~= texts(items@).subrange(0, i as int).map_values(|t: Seq<char>| json_quoted(t)).push(json_quoted(items@[i as int]@)));
        i = i + 1;
    }
    assert(texts(items@).subrange(0, items@.len() as int) =~= texts(items@));
    out.append("[");
    out.append(join_texts(&quoted, ",").as_str());
    out.append("]");
}

/// `viv config eval --json`: the merged configuration nested under the identity that produced it,
/// keys in `serde_json`'s sorted order, and a newline.
pub open spec fn eval_json_text(manifest: Seq<char>, image: Seq<char>, pieces: Seq<Seq<char>>, configuration: Seq<char>) -> Seq<char> {
    "{\"config\":"@ + configuration + ",\"image\":"@ + json_quoted(image) + ",\"manifest\":"@ + json_quoted(manifest)
        + ",\"pieces\":"@ + string_array(pieces) + "}\n"@
}

/// `viv config eval --json`. `configuration` is the merged configuration's JSON text.
pub fn config_eval_json(manifest: &str, image: &str, pieces: &Vec<String>, configuration: &str) -> (text: String)
    ensures
        text@ == eval_json_text(manifest@, image@, texts(pieces@), configuration@),
{
    let mut text = String::new();
    text.append("{\"config\":");
    text.append(configuration);
    text.append(",\"image\":");
    text.append(json_string(image).as_str());
    text.append(",\"manifest\":");
    text.append(json_string(manifest).as_str());
    text.append(",\"pieces\":");
    push_string_array(&mut text, pieces);
    text.append("}\n");
    text
}

/// Whether text `a` sorts strictly before `b`, character by character, as `String`'s order does
/// (UTF-8 byte order is code point order).
pub open spec fn text_before(a: Seq<char>, b: Seq<char>) -> bool
    decreases a.len(),
{
    if b.len() == 0 {
        false
    } else if a.len() == 0 {
        true
    } else if a[0] != b[0] {
        (a[0] as int) < (b[0] as int)
    } else {
        text_before(a.drop_first(), b.drop_first())
    }
}

proof fn lemma_before_irreflexive(a: Seq<char>)
    ensures
        !text_before(a, a),
    decreases a.len(),
{
    if a.len() > 0 {
        lemma_before_irreflexive(a.drop_first());
    }
}

proof fn lemma_before_asymmetric(a: Seq<char>, b: Seq<char>)
    ensures
        text_before(a, b) ==> !text_before(b, a),
    decreases a.len(),
{
    if a.len() > 0 && b.len() > 0 && a[0] == b[0] {
        lemma_before_asymmetric(a.drop_first(), b.drop_first());
    }
}

proof fn lemma_before_total(a: Seq<char>, b: Seq<char>)
    ensures
        a != b ==> text_before(a, b) || text_before(b, a),
    decreases a.len(),
{
    if a.len() > 0 && b.len() > 0 && a[0] == b[0] {
        lemma_before_total(a.drop_first(), b.drop_first());
        if a.drop_first() == b.drop_first() {
            assert(a =~= seq![a[0]] + a.drop_first());
            assert(b =~= seq![b[0]] + b.drop_first());
        }
    } else if a.len() == 0 && b.len() == 0 {
        assert(a =~= b);
    }
}

proof fn lemma_before_transitive(a: Seq<char>, b: Seq<char>, c: Seq<char>)
    requires
        text_before(a, b),
        text_before(b, c),
    ensures
        text_before(a, c),
    decreases a.len(),
{
    if a.len() > 0 && a[0] == b[0] && b[0] == c[0] {
        lemma_before_transitive(a.drop_first(), b.drop_first(), c.drop_first());
    }
}

/// Whether `a` sorts strictly before `b`.
fn before(a: &str, b: &str) -> (r: bool)
    ensures
        r == text_before(a@, b@),
{
    let n = a.unicode_len();
    let m = b.unicode_len();
    let mut i: usize = 0;
    assert(a@.subrange(0, n as int) =~= a@);
    assert(b@.subrange(0, m as int) =~= b@);
    while i < n && i < m
        invariant
            i <= n,
            i <= m,
            n == a@.len(),
            m == b@.len(),
            text_before(a@, b@) == text_before(a@.subrange(i as int, n as int), b@.subrange(i as int, m as int)),
        decreases n - i,
    {
        let x = a.get_char(i);
        let y = b.get_char(i);
        assert(a@.subrange(i as int, n as int).drop_first() =~= a@.subrange(i + 1, n as int));
        assert(b@.subrange(i as int, m as int).drop_first() =~= b@.subrange(i + 1, m as int));
        if x != y {
            return (x as u32) < (y as u32);
        }
        i = i + 1;
    }
    i < m
}

/// A sorted map of texts, as `serde_json`'s object keeps its keys: `key` placed in order, or
/// replacing the value it already has.
pub open spec fn insert_entry(entries: Seq<(Seq<char>, Seq<char>)>, key: Seq<char>, value: Seq<char>) -> Seq<(Seq<char>, Seq<char>)>
    decreases entries.len(),
{
    if entries.len() == 0 {
        seq![(key, value)]
    } else if entries[0].0 == key {
        entries.update(0, (key, value))
    } else if text_before(key, entries[0].0) {
        seq![(key, value)] + entries
    } else {
        seq![entries[0]] + insert_entry(entries.drop_first(), key, value)
    }
}

/// Whether the keys are strictly increasing.
pub open spec fn strictly_sorted(entries: Seq<(Seq<char>, Seq<char>)>) -> bool {
    forall|i: int, j: int| 0 <= i < j < entries.len() ==> text_before(#[trigger] entries[i].0, #[trigger] entries[j].0)
}

proof fn lemma_insert_at(entries: Seq<(Seq<char>, Seq<char>)>, key: Seq<char>, value: Seq<char>, i: int)
    requires
        0 <= i <= entries.len(),
        forall|j: int| 0 <= j < i ==> text_before(#[trigger] entries[j].0, key),
        i < entries.len() ==> !text_before(entries[i].0, key),
    ensures
        insert_entry(entries, key, value) == if i < entries.len() && entries[i].0 == key {
            entries.update(i, (key, value))
        } else {
            entries.subrange(0, i) + seq![(key, value)] + entries.subrange(i, entries.len() as int)
        },
    decreases i,
{
    if i == 0 {
        if entries.len() > 0 && entries[0].0 != key {
            lemma_before_total(key, entries[0].0);
        }
        assert(entries.subrange(0, entries.len() as int) =~= entries);
        assert(entries.subrange(0, 0) + seq![(key, value)] + entries =~= seq![(key, value)] + entries);
    } else {
        lemma_before_irreflexive(key);
        lemma_before_asymmetric(entries[0].0, key);
        let rest = entries.drop_first();
        assert forall|j: int| 0 <= j < i - 1 implies text_before(#[trigger] rest[j].0, key) by {
            assert(rest[j] == entries[j + 1]);
        }
        lemma_insert_at(rest, key, value, i - 1);
        if i < entries.len() && entries[i].0 == key {
            assert(seq![entries[0]] + rest.update(i - 1, (key, value)) =~= entries.update(i, (key, value)));
        } else {
            assert(seq![entries[0]] + (rest.subrange(0, i - 1) + seq![(key, value)] + rest.subrange(i - 1, rest.len() as int))
                =~= entries.subrange(0, i) + seq![(key, value)] + entries.subrange(i, entries.len() as int));
        }
    }
}

/// Places `key` with `value` into a sorted vector of entries.
fn insert_sorted(entries: &mut Vec<(String, String)>, key: String, value: String)
    requires
        strictly_sorted(fields_of(old(entries)@)),
    ensures
        fields_of(final(entries)@) == insert_entry(fields_of(old(entries)@), key@, value@),
        strictly_sorted(fields_of(final(entries)@)),
{
    let ghost e = fields_of(entries@);
    let mut i: usize = 0;
    while i < entries.len() && before(entries[i].0.as_str(), key.as_str())
        invariant
            i <= entries.len(),
            e == fields_of(entries@),
            forall|j: int| 0 <= j < i ==> text_before(#[trigger] e[j].0, key@),
        decreases entries.len() - i,
    {
        i = i + 1;
    }
    proof {
        lemma_insert_at(e, key@, value@, i as int);
    }
    if i < entries.len() && same_text(entries[i].0.as_str(), key.as_str()) {
        entries.set(i, (key, value));
        assert(fields_of(entries@) =~= e.update(i as int, (e[i as int].0, value@)));
    } else {
        entries.insert(i, (key, value));
        assert(fields_of(entries@) =~= e.subrange(0, i as int) + seq![(key@, value@)] + e.subrange(i as int, e.len() as int));
        assert forall|a: int, b: int| 0 <= a < b < fields_of(entries@).len() implies text_before(#[trigger] fields_of(entries@)[a].0, #[trigger] fields_of(entries@)[b].0) by {
            let f = fields_of(entries@);
            if b == i {
                assert(f[a] == e[a]);
            } else if a == i {
                assert(f[b] == e[b - 1]);
                if i < e.len() {
                    if e[i as int].0 != key@ {
                        lemma_before_total(key@, e[i as int].0);
                    }
                    if b - 1 > i {
                        assert(text_before(e[i as int].0, e[b - 1].0));
                        lemma_before_transitive(key@, e[i as int].0, e[b - 1].0);
                    }
                }
            } else if a < i && b > i {
                assert(f[a] == e[a]);
                assert(f[b] == e[b - 1]);
                if a < b - 1 {
                    assert(text_before(e[a].0, e[b - 1].0));
                } 
            } else if b < i {
                assert(f[a] == e[a] && f[b] == e[b]);
            } else {
                assert(f[a] == e[a - 1] && f[b] == e[b - 1]);
            }
        }
    }
}

/// Every key of an insertion is the inserted key or one that was there.
proof fn lemma_insert_keys(entries: Seq<(Seq<char>, Seq<char>)>, key: Seq<char>, value: Seq<char>)
    ensures
        forall|j: int| 0 <= j < insert_entry(entries, key, value).len() ==> (#[trigger] insert_entry(entries, key, value)[j]).0 == key
            || exists|m: int| 0 <= m < entries.len() && entries[m].0 == insert_entry(entries, key, value)[j].0,
    decreases entries.len(),
{
    let r = insert_entry(entries, key, value);
    if entries.len() == 0 {
    } else if entries[0].0 == key {
        assert forall|j: int| 0 <= j < r.len() implies (#[trigger] r[j]).0 == key
            || exists|m: int| 0 <= m < entries.len() && entries[m].0 == r[j].0 by {
            if j > 0 {
                assert(entries[j].0 == r[j].0);
            }
        }
    } else if text_before(key, entries[0].0) {
        assert forall|j: int| 0 <= j < r.len() implies (#[trigger] r[j]).0 == key
            || exists|m: int| 0 <= m < entries.len() && entries[m].0 == r[j].0 by {
            if j > 0 {
                assert(entries[j - 1].0 == r[j].0);
            }
        }
    } else {
        let rest = entries.drop_first();
        lemma_insert_keys(rest, key, value);
        let t = insert_entry(rest, key, value);
        assert forall|j: int| 0 <= j < r.len() implies (#[trigger] r[j]).0 == key
            || exists|m: int| 0 <= m < entries.len() && entries[m].0 == r[j].0 by {
            if j == 0 {
                assert(entries[0].0 == r[0].0);
            } else {
                assert(r[j] == t[j - 1]);
                if t[j - 1].0 != key {
                    let m = choose|m: int| 0 <= m < rest.len() && rest[m].0 == t[j - 1].0;
                    assert(entries[m + 1].0 == r[j].0);
                }
            }
        }
    }
}

/// Inserting into strictly sorted entries keeps them strictly sorted.
proof fn lemma_insert_keeps_order(entries: Seq<(Seq<char>, Seq<char>)>, key: Seq<char>, value: Seq<char>)
    requires
        strictly_sorted(entries),
    ensures
        strictly_sorted(insert_entry(entries, key, value)),
    decreases entries.len(),
{
    let r = insert_entry(entries, key, value);
    if entries.len() == 0 {
    } else if entries[0].0 == key {
        assert forall|i: int, j: int| 0 <= i < j < r.len() implies text_before(#[trigger] r[i].0, #[trigger] r[j].0) by {
            assert(r[i].0 == entries[i].0 && r[j].0 == entries[j].0);
        }
    } else if text_before(key, entries[0].0) {
        assert forall|i: int, j: int| 0 <= i < j < r.len() implies text_before(#[trigger] r[i].0, #[trigger] r[j].0) by {
            if i == 0 {
                if j > 1 {
                    assert(text_before(entries[0].0, entries[j - 1].0));
                    lemma_before_transitive(key, entries[0].0, entries[j - 1].0);
                }
            } else {
                assert(r[i] == entries[i - 1] && r[j] == entries[j - 1]);
            }
        }
    } else {
        lemma_before_total(key, entries[0].0);
        let rest = entries.drop_first();
        assert(strictly_sorted(rest)) by {
            assert forall|i: int, j: int| 0 <= i < j < rest.len() implies text_before(#[trigger] rest[i].0, #[trigger] rest[j].0) by {
                assert(rest[i] == entries[i + 1] && rest[j] == entries[j + 1]);
            }
        }
        lemma_insert_keeps_order(rest, key, value);
        lemma_insert_keys(rest, key, value);
        let t = insert_entry(rest, key, value);
        assert forall|i: int, j: int| 0 <= i < j < r.len() implies text_before(#[trigger] r[i].0, #[trigger] r[j].0) by {
            assert(r[j] == t[j - 1]);
            if i == 0 {
                assert(r[0] == entries[0]);
                if t[j - 1].0 != key {
                    let m = choose|m: int| 0 <= m < rest.len() && rest[m].0 == t[j - 1].0;
                    assert(rest[m] == entries[m + 1]);
                    assert(text_before(entries[0].0, entries[m + 1].0));
                }
            } else {
                assert(r[i] == t[i - 1]);
            }
        }
    }
}

/// `viv config sources --json` keys its values object in strictly increasing order: each key
/// once, however many views the analysis had of it.
pub proof fn law_sources_keys_are_sorted_once(values: Seq<ValueView>)
    ensures
        strictly_sorted(keyed_views(values)),
    decreases values.len(),
{
    if values.len() > 0 {
        law_sources_keys_are_sorted_once(values.drop_last());
        lemma_insert_keeps_order(keyed_views(values.drop_last()), values.last().key@, view_object(values.last()));
    }
}

/// One contributor as `viv config sources --json` records it, keys in order.
pub open spec fn contributor_object(c: Contributor) -> Seq<char> {
    "{\"kind\":"@ + json_quoted(c.kind@) + ",\"layer\":"@ + json_quoted(c.layer@) + ",\"priority\":"@ + c.priority@
        + ",\"value\":"@ + c.value@ + ",\"winner\":"@ + (if c.winner { "true"@ } else { "false"@ }) + "}"@
}

/// One key's record: its contributors, its merged value and its winning layer, each `null` when
/// there is none.
pub open spec fn view_object(v: ValueView) -> Seq<char> {
    "{\"contributors\":["@ + joined(v.contributors@.map_values(|c: Contributor| contributor_object(c)), ","@)
        + "],\"effective\":"@ + (match v.effective {
            Some(e) => e@,
            None => "null"@,
        }) + ",\"winner\":"@ + (match v.winner {
            Some(w) => json_quoted(w@),
            None => "null"@,
        }) + "}"@
}

/// The keyed records, in key order, a later record of a key replacing an earlier one.
pub open spec fn keyed_views(values: Seq<ValueView>) -> Seq<(Seq<char>, Seq<char>)>
    decreases values.len(),
{
    if values.len() == 0 {
        Seq::empty()
    } else {
        insert_entry(keyed_views(values.drop_last()), values.last().key@, view_object(values.last()))
    }
}

/// An object of already-rendered members, in the order given.
pub open spec fn object_text(entries: Seq<(Seq<char>, Seq<char>)>) -> Seq<char> {
    "{"@ + joined(entries.map_values(|e: (Seq<char>, Seq<char>)| json_quoted(e.0) + ":"@ + e.1), ","@) + "}"@
}

/// One conflict, keys in order.
pub open spec fn conflict_object(c: Conflict) -> Seq<char> {
    "{\"key\":"@ + json_quoted(c.key@) + ",\"kind\":"@ + json_quoted(c.kind@) + ",\"layers\":"@
        + string_array(texts(c.layers@)) + "}"@
}

/// `viv config sources --json`: provenance and defects, keys in `serde_json`'s sorted order.
pub open spec fn sources_json_text(manifest: Seq<char>, image: Seq<char>, pieces: Seq<Seq<char>>, values: Seq<ValueView>, conflicts: Seq<Conflict>) -> Seq<char> {
    "{\"conflicts\":["@ + joined(conflicts.map_values(|c: Conflict| conflict_object(c)), ","@) + "],\"image\":"@
        + json_quoted(image) + ",\"manifest\":"@ + json_quoted(manifest) + ",\"pieces\":"@ + string_array(pieces)
        + ",\"values\":"@ + object_text(keyed_views(values)) + "}\n"@
}

fn contributor_json(c: &Contributor) -> (text: String)
    ensures
        text@ == contributor_object(*c),
{
    let mut text = String::new();
    text.append("{\"kind\":");
    text.append(json_string(c.kind.as_str()).as_str());
    text.append(",\"layer\":");
    text.append(json_string(c.layer.as_str()).as_str());
    text.append(",\"priority\":");
    text.append(c.priority.as_str());
    text.append(",\"value\":");
    text.append(c.value.as_str());
    text.append(",\"winner\":");
    text.append(if c.winner { "true" } else { "false" });
    text.append("}");
    text
}

fn view_json(v: &ValueView) -> (text: String)
    ensures
        text@ == view_object(*v),
{
    let mut parts: Vec<String> = Vec::new();
    let mut i: usize = 0;
    while i < v.contributors.len()
        invariant
            i <= v.contributors.len(),
            texts(parts@) == v.contributors@.subrange(0, i as int).map_values(|c: Contributor| contributor_object(c)),
        decreases v.contributors.len() - i,
    {
        let ghost before = parts@;
        parts.push(contributor_json(&v.contributors[i]));
        assert(texts(parts@) =~= texts(before).push(contributor_object(v.contributors@[i as int])));
        assert(v.contributors@.subrange(0, i + 1).map_values(|c: Contributor| contributor_object(c)) =~= v.contributors@.subrange(0, i as int).map_values(|c: Contributor| contributor_object(c)).push(contributor_object(v.contributors@[i as int])));
        i = i + 1;
    }
    assert(v.contributors@.subrange(0, v.contributors@.len() as int) =~= v.contributors@);
    let mut text = String::new();
    text.append("{\"contributors\":[");
    text.append(join_texts(&parts, ",").as_str());
    text.append("],\"effective\":");
    match &v.effective {
        Some(e) => text.append(e.as_str()),
        None => text.append("null"),
    }
    text.append(",\"winner\":");
    match &v.winner {
        Some(w) => text.append(json_string(w.as_str()).as_str()),
        None => text.append("null"),
    }
    text.append("}");
    text
}

fn conflict_json(c: &Conflict) -> (text: String)
    ensures
        text@ == conflict_object(*c),
{
    let mut text = String::new();
    text.append("{\"key\":");
    text.append(json_string(c.key.as_str()).as_str());
    text.append(",\"kind\":");
    text.append(json_string(c.kind.as_str()).as_str());
    text.append(",\"layers\":");
    push_string_array(&mut text, &c.layers);
    text.append("}");
    text
}

/// `viv config sources --json`: each key's contributors, merged value and winner, keyed in
/// sorted order, and every conflict, under the identity that produced them; at exit `0`.
pub fn config_sources_json(manifest: &str, image: &str, pieces: &Vec<String>, values: &Vec<ValueView>, conflicts: &Vec<Conflict>) -> (text: String)
    ensures
        text@ == sources_json_text(manifest@, image@, texts(pieces@), values@, conflicts@),
{
    let mut keyed: Vec<(String, String)> = Vec::new();
    let mut i: usize = 0;
    while i < values.len()
        invariant
            i <= values.len(),
            fields_of(keyed@) == keyed_views(values@.subrange(0, i as int)),
            strictly_sorted(fields_of(keyed@)),
        decreases values.len() - i,
    {
        assert(values@.subrange(0, i + 1).drop_last() =~= values@.subrange(0, i as int));
        let v = &values[i];
        insert_sorted(&mut keyed, v.key.clone(), view_json(v));
        i = i + 1;
    }
    assert(values@.subrange(0, values@.len() as int) =~= values@);
    let ghost k = fields_of(keyed@);
    let mut members: Vec<String> = Vec::new();
    let mut j: usize = 0;
    while j < keyed.len()
        invariant
            j <= keyed.len(),
            k == fields_of(keyed@),
            texts(members@) == k.subrange(0, j as int).map_values(|e: (Seq<char>, Seq<char>)| json_quoted(e.0) + ":"@ + e.1),
        decreases keyed.len() - j,
    {
        let mut member = json_string(keyed[j].0.as_str());
        member.append(":");
        member.append(keyed[j].1.as_str());
        let ghost before = members@;
        members.push(member);
        assert(texts(members@) =~= texts(before).push(json_quoted(k[j as int].0) + ":"@ + k[j as int].1));
        assert(k.subrange(0, j + 1).map_values(|e: (Seq<char>, Seq<char>)| json_quoted(e.0) + ":"@ + e.1) =~= k.subrange(0, j as int).map_values(|e: (Seq<char>, Seq<char>)| json_quoted(e.0) + ":"@ + e.1).push(json_quoted(k[j as int].0) + ":"@ + k[j as int].1));
        j = j + 1;
    }
    assert(k.subrange(0, k.len() as int) =~= k);
    let mut parts: Vec<String> = Vec::new();
    let mut c: usize = 0;
    while c < conflicts.len()
        invariant
            c <= conflicts.len(),
            texts(parts@) == conflicts@.subrange(0, c as int).map_values(|x: Conflict| conflict_object(x)),
        decreases conflicts.len() - c,
    {
        let ghost before = parts@;
        parts.push(conflict_json(&conflicts[c]));
        assert(texts(parts@) =~= texts(before).push(conflict_object(conflicts@[c as int])));
        assert(conflicts@.subrange(0, c + 1).map_values(|x: Conflict| conflict_object(x)) =~= conflicts@.subrange(0, c as int).map_values(|x: Conflict| conflict_object(x)).push(conflict_object(conflicts@[c as int])));
        c = c + 1;
    }
    assert(conflicts@.subrange(0, conflicts@.len() as int) =~= conflicts@);
    let mut text = String::new();
    text.append("{\"conflicts\":[");
    text.append(join_texts(&parts, ",").as_str());
    text.append("],\"image\":");
    text.append(json_string(image).as_str());
    text.append(",\"manifest\":");
    text.append(json_string(manifest).as_str());
    text.append(",\"pieces\":");
    push_string_array(&mut text, pieces);
    text.append(",\"values\":");
    text.append("{");
    text.append(join_texts(&members, ",").as_str());
    text.append("}");
    text.append("}\n");
    text
}

} // verus!
