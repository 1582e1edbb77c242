//! `viv update`: which inputs it names (the user's own names, deduplicated, and the inputs they
//! translate to when a base image owns a followed baseline), the re-resolution it runs, what a
//! failed run costs, and the rows and notes it reports.
use vstd::prelude::*;
use crate::exit::ExitKind;
use crate::failure::{diagnosed, diagnostic_is, Failure, Locus, Namespace};
use crate::grammar::UsageError;
use crate::lifecycle::same_text;
use crate::text::{joined, json_quoted, json_string, lowercase, lowercased, texts, trim, trim_spec};
use crate::stop::{contains, plain_diagnostic};

use crate::config_view::text_before;

verus! {

/// The one-line form of `viv update`.
pub const UPDATE_USAGE: &'static str = "viv update [<input>...] [--json]";

/// The base image a manifest builds on, and which baselines it declares itself.
pub struct ImageBase {
    pub input_name: String,
    pub declares_nixpkgs: bool,
    pub declares_microvm: bool,
}

/// The public inputs a project has: the two baselines, its declared inputs, and its base.
pub open spec fn known_names(declared: Seq<Seq<char>>, base: Option<Seq<char>>) -> Seq<Seq<char>> {
    seq!["nixpkgs"@, "microvm"@] + declared + match base {
        Some(b) => seq![b],
        None => Seq::empty(),
    }
}

/// A sequence with each element kept at its first occurrence only.
pub open spec fn dedup(s: Seq<Seq<char>>) -> Seq<Seq<char>>
    decreases s.len(),
{
    if s.len() == 0 {
        Seq::empty()
    } else {
        let d = dedup(s.drop_last());
        if d.contains(s.last()) {
            d
        } else {
            d.push(s.last())
        }
    }
}

/// The input Nix is invoked on for one requested name: a baseline the base declares is the
/// base's own, and every other name is itself.
pub open spec fn translated_name(name: Seq<char>, base: Option<(Seq<char>, bool, bool)>) -> Seq<char> {
    match base {
        Some((input, nixpkgs, microvm)) => if (name == "nixpkgs"@ && nixpkgs) || (name == "microvm"@ && microvm) {
            input
        } else {
            name
        },
        None => name,
    }
}

/// A baseline the base image declares is updated through the base: a request for it runs the
/// update on the base's own input, and never on the project's baseline of that name, which the
/// base overrides; a baseline the base does not declare, and every other name, is updated as
/// itself. (`input` is the base's input, a name of its own.)
pub proof fn law_baselines_go_through_the_base(inputs: Seq<Seq<char>>, input: Seq<char>, nixpkgs: bool, microvm: bool)
    requires
        input != "microvm"@,
        input != "nixpkgs"@,
    ensures
        ({
            let t = dedup(translated_map(inputs, Some((input, nixpkgs, microvm))));
            &&& microvm && inputs.contains("microvm"@) ==> t.contains(input)
            &&& microvm ==> !t.contains("microvm"@)
            &&& !microvm && inputs.contains("microvm"@) ==> t.contains("microvm"@)
            &&& nixpkgs && inputs.contains("nixpkgs"@) ==> t.contains(input)
            &&& nixpkgs ==> !t.contains("nixpkgs"@)
            &&& !nixpkgs && inputs.contains("nixpkgs"@) ==> t.contains("nixpkgs"@)
            &&& forall|x: Seq<char>| x != "microvm"@ && x != "nixpkgs"@ && inputs.contains(x) ==> #[trigger] t.contains(x)
        }),
{
    reveal_strlit("microvm");
    reveal_strlit("nixpkgs");
    assert("microvm"@ != "nixpkgs"@) by {
        assert("microvm"@[0] != "nixpkgs"@[0]);
    }
    let b = Some((input, nixpkgs, microvm));
    let m = translated_map(inputs, b);
    lemma_dedup_shape(m);
    let t = dedup(m);
    if inputs.contains("microvm"@) {
        let k = choose|k: int| 0 <= k < inputs.len() && inputs[k] == "microvm"@;
        assert(m[k] == translated_name("microvm"@, b));
        assert(m.contains(m[k]));
        assert(t.contains(m[k]));
    }
    if inputs.contains("nixpkgs"@) {
        let k = choose|k: int| 0 <= k < inputs.len() && inputs[k] == "nixpkgs"@;
        assert(m[k] == translated_name("nixpkgs"@, b));
        assert(m.contains(m[k]));
        assert(t.contains(m[k]));
    }
    if microvm && t.contains("microvm"@) {
        assert(m.contains("microvm"@));
    }
    if nixpkgs && t.contains("nixpkgs"@) {
        assert(m.contains("nixpkgs"@));
    }
    assert forall|x: Seq<char>| m.contains(x) implies x != "microvm"@ || !microvm by {
        let k = choose|k: int| 0 <= k < m.len() && m[k] == x;
        assert(m[k] == translated_name(inputs[k], b));
    }
    assert forall|x: Seq<char>| m.contains(x) implies x != "nixpkgs"@ || !nixpkgs by {
        let k = choose|k: int| 0 <= k < m.len() && m[k] == x;
        assert(m[k] == translated_name(inputs[k], b));
    }
    assert forall|x: Seq<char>| x != "microvm"@ && x != "nixpkgs"@ && inputs.contains(x) implies #[trigger] t.contains(x) by {
        let k = choose|k: int| 0 <= k < inputs.len() && inputs[k] == x;
        assert(translated_name(inputs[k], b) == x);
        assert(m[k] == x);
        assert(m.contains(x));
        assert(dedup(m).contains(x) <==> m.contains(x));
    }
}

/// The input each requested name is updated through, request by request.
pub open spec fn translated_map(names: Seq<Seq<char>>, base: Option<(Seq<char>, bool, bool)>) -> Seq<Seq<char>> {
    names.map_values(|n: Seq<char>| translated_name(n, base))
}

/// The base by value.
pub open spec fn base_view(base: Option<&ImageBase>) -> Option<(Seq<char>, bool, bool)> {
    match base {
        Some(b) => Some((b.input_name@, b.declares_nixpkgs, b.declares_microvm)),
        None => None,
    }
}

/// The first input that names nothing the project has.
pub open spec fn first_unknown(inputs: Seq<Seq<char>>, known: Seq<Seq<char>>, i: int) -> Option<Seq<char>>
    decreases inputs.len() - i,
{
    if i < 0 || i >= inputs.len() {
        None
    } else if !known.contains(inputs[i]) {
        Some(inputs[i])
    } else {
        first_unknown(inputs, known, i + 1)
    }
}

/// Whether `s` is one of the texts of `v`.
pub(crate) fn text_listed(v: &Vec<String>, s: &String) -> (r: bool)
    ensures
        r == texts(v@).contains(s@),
{
    let mut i: usize = 0;
    while i < v.len()
        invariant
            i <= v.len(),
            forall|j: int| 0 <= j < i ==> texts(v@)[j] != s@,
        decreases v.len() - i,
    {
        if v[i] == *s {
            assert(texts(v@)[i as int] == s@);
            return true;
        }
        i = i + 1;
    }
    false
}

fn push_unique(v: &mut Vec<String>, s: String)
    ensures
        texts(final(v)@) == (if texts(old(v)@).contains(s@) {
            texts(old(v)@)
        } else {
            texts(old(v)@).push(s@)
        }),
{
    if !text_listed(v, &s) {
        let ghost before = v@;
        let ghost sv = s@;
        v.push(s);
        assert(texts(v@) =~= texts(before).push(sv));
    }
}

/// The known names, an unknown name refused as usage, and the requested and translated lists.
pub fn requested_names(inputs: &Vec<String>, declared: &Vec<String>, base: Option<&ImageBase>) -> (r: Result<(Vec<String>, Vec<String>), Failure>)
    ensures
        ({
            let known = known_names(texts(declared@), match base {
                Some(b) => Some(b.input_name@),
                None => None,
            });
            match first_unknown(texts(inputs@), known, 0) {
                Some(unknown) => match r {
                    Err(Failure::Usage(e)) => e.message@ == "`viv update` knows no input `"@ + unknown
                        + "` (this project has: "@ + joined(known, ", "@) + ")"@ && e.usage == Some(UPDATE_USAGE),
                    _ => false,
                },
                None => r matches Ok((requested, translated)) && texts(requested@) == dedup(texts(inputs@))
                    && texts(translated@) == dedup(translated_map(texts(inputs@), base_view(base))),
            }
        }),
{
    let ghost known_spec = known_names(texts(declared@), match base {
        Some(b) => Some(b.input_name@),
        None => None,
    });
    let mut known: Vec<String> = Vec::new();
    known.push("nixpkgs".to_owned());
    known.push("microvm".to_owned());
    let mut d: usize = 0;
    while d < declared.len()
        invariant
            d <= declared.len(),
            texts(known@) == seq!["nixpkgs"@, "microvm"@] + texts(declared@.subrange(0, d as int)),
        decreases declared.len() - d,
    {
        let ghost before = known@;
        known.push(declared[d].clone());
        assert(texts(known@) =~= texts(before).push(declared@[d as int]@));
        assert(texts(declared@.subrange(0, d + 1)) =~= texts(declared@.subrange(0, d as int)).push(declared@[d as int]@));
        d = d + 1;
    }
    assert(declared@.subrange(0, declared@.len() as int) =~= declared@);
    match base {
        Some(b) => {
            let ghost before = known@;
            known.push(b.input_name.clone());
            assert(texts(known@) =~= texts(before).push(b.input_name@));
        },
        None => {},
    }
    assert(texts(known@) =~= known_spec);
    let mut i: usize = 0;
    while i < inputs.len()
        invariant
            i <= inputs.len(),
            known_spec == known_names(texts(declared@), match base {
                Some(b) => Some(b.input_name@),
                None => None,
            }),
            texts(known@) == known_spec,
            first_unknown(texts(inputs@), known_spec, 0) == first_unknown(texts(inputs@), known_spec, i as int),
        decreases inputs.len() - i,
    {
        assert(texts(inputs@)[i as int] == inputs@[i as int]@);
        if !text_listed(&known, &inputs[i]) {
            let mut message = String::new();
            message.append("`viv update` knows no input `");
            message.append(inputs[i].as_str());
            message.append("` (this project has: ");
            let mut k: usize = 0;
            let ghost head = message@;
            assert(first_unknown(texts(inputs@), known_spec, i as int) == Some(inputs@[i as int]@));
            while k < known.len()
                invariant
                    k <= known.len(),
                    i < inputs.len(),
                    known_spec == known_names(texts(declared@), match base {
                        Some(b) => Some(b.input_name@),
                        None => None,
                    }),
                    texts(known@) == known_spec,
                    first_unknown(texts(inputs@), known_spec, 0) == Some(inputs@[i as int]@),
                    head == "`viv update` knows no input `"@ + inputs@[i as int]@ + "` (this project has: "@,
                    message@ == head + joined(texts(known@).subrange(0, k as int), ", "@),
                decreases known.len() - k,
            {
                let ghost parts = texts(known@).subrange(0, k + 1);
                assert(parts.drop_last() =~= texts(known@).subrange(0, k as int));
                if k > 0 {
                    message.append(", ");
                }
                message.append(known[k].as_str());
                k = k + 1;
            }
            assert(texts(known@).subrange(0, known@.len() as int) =~= texts(known@));
            message.append(")");
            return Err(Failure::Usage(UsageError { message, usage: Some(UPDATE_USAGE) }));
        }
        i = i + 1;
    }
    let ghost names = texts(inputs@);
    let ghost targets = translated_map(names, base_view(base));
    let mut requested: Vec<String> = Vec::new();
    let mut translated: Vec<String> = Vec::new();
    let mut j: usize = 0;
    while j < inputs.len()
        invariant
            j <= inputs.len(),
            names == texts(inputs@),
            targets == translated_map(names, base_view(base)),
            texts(requested@) == dedup(names.subrange(0, j as int)),
            texts(translated@) == dedup(targets.subrange(0, j as int)),
        decreases inputs.len() - j,
    {
        let name = &inputs[j];
        assert(names.subrange(0, j + 1).drop_last() =~= names.subrange(0, j as int));
        assert(targets.subrange(0, j + 1).drop_last() =~= targets.subrange(0, j as int));
        push_unique(&mut requested, name.clone());
        let target = match base {
            Some(b) => {
                let is_nixpkgs = *name == "nixpkgs".to_owned();
                let is_microvm = *name == "microvm".to_owned();
                if (is_nixpkgs && b.declares_nixpkgs) || (is_microvm && b.declares_microvm) {
                    b.input_name.clone()
                } else {
                    name.clone()
                }
            },
            None => name.clone(),
        };
        assert(names[j as int] == name@);
        assert(targets[j as int] == translated_name(name@, base_view(base)));
        assert(target@ == targets[j as int]);
        push_unique(&mut translated, target);
        j = j + 1;
    }
    assert(names.subrange(0, names.len() as int) =~= names);
    assert(targets.subrange(0, targets.len() as int) =~= targets);
    Ok((requested, translated))
}

proof fn lemma_dedup_shape(s: Seq<Seq<char>>)
    ensures
        forall|i: int, j: int| 0 <= i < j < dedup(s).len() ==> dedup(s)[i] != dedup(s)[j],
        forall|x: Seq<char>| dedup(s).contains(x) <==> s.contains(x),
    decreases s.len(),
{
    if s.len() > 0 {
        let t = s.drop_last();
        lemma_dedup_shape(t);
        let d = dedup(t);
        let last = s.last();
        assert forall|x: Seq<char>| dedup(s).contains(x) <==> s.contains(x) by {
            if dedup(s).contains(x) {
                let k = choose|k: int| 0 <= k < dedup(s).len() && dedup(s)[k] == x;
                if k < d.len() {
                    assert(d[k] == x);
                    assert(d.contains(x));
                    assert(t.contains(x));
                    let m = choose|m: int| 0 <= m < t.len() && t[m] == x;
                    assert(s[m] == x);
                } else {
                    assert(x == last);
                    assert(s[s.len() - 1] == x);
                }
            }
            if s.contains(x) {
                let k = choose|k: int| 0 <= k < s.len() && s[k] == x;
                if k < s.len() - 1 {
                    assert(t[k] == x);
                    assert(t.contains(x));
                    assert(d.contains(x));
                    let m = choose|m: int| 0 <= m < d.len() && d[m] == x;
                    if !d.contains(last) {
                        assert(d.push(last)[m] == x);
                    }
                } else {
                    assert(x == last);
                    if !d.contains(last) {
                        assert(d.push(last)[d.len() as int] == x);
                    }
                }
            }
        }
    }
}

/// The requested list names each input once, in the order first given, and nothing else.
pub proof fn law_each_request_once(inputs: Seq<Seq<char>>)
    ensures
        forall|i: int, j: int| 0 <= i < j < dedup(inputs).len() ==> dedup(inputs)[i] != dedup(inputs)[j],
        forall|x: Seq<char>| dedup(inputs).contains(x) <==> inputs.contains(x),
{
    lemma_dedup_shape(inputs);
}

/// One root input's pin: the fingerprint of its whole resolved subtree, and how it is shown.
pub struct RootPin {
    pub fingerprint: String,
    pub display: Option<String>,
}

/// Whether pins stand as a lock's map of root inputs holds them: in strictly increasing name
/// order, so no name twice.
#[verifier::opaque]
pub open spec fn pins_keyed(pins: Seq<(String, RootPin)>) -> bool {
    forall|i: int, j: int| 0 <= i < j < pins.len() ==> text_before(#[trigger] pins[i].0@, #[trigger] pins[j].0@)
}

/// The pin a lock holds for `name`: the first entry so named.
pub open spec fn pin_of(pins: Seq<(String, RootPin)>, name: Seq<char>) -> Option<RootPin>
    decreases pins.len(),
{
    if pins.len() == 0 {
        None
    } else if pins[0].0@ == name {
        Some(pins[0].1)
    } else {
        pin_of(pins.drop_first(), name)
    }
}

/// Whether `name`'s pin moved: a created pin is a change, and so is any other fingerprint.
pub open spec fn moved(before: Seq<(String, RootPin)>, name: Seq<char>, pin: RootPin) -> bool {
    match pin_of(before, name) {
        Some(prior) => prior.fingerprint@ != pin.fingerprint@,
        None => true,
    }
}

/// Whether an input is reported: every requested one, unchanged rows included, and any other
/// whose pin moved. No names means every input.
pub open spec fn reported(before: Seq<(String, RootPin)>, requested: Seq<Seq<char>>, name: Seq<char>, pin: RootPin) -> bool {
    requested.len() == 0 || requested.contains(name) || moved(before, name, pin)
}

pub open spec fn shown_or_dash(t: Option<String>) -> Seq<char> {
    match t {
        Some(s) => s@,
        None => "-"@,
    }
}

pub open spec fn quoted_or_null(t: Option<String>) -> Seq<char> {
    match t {
        Some(s) => json_quoted(s@),
        None => "null"@,
    }
}

/// One reported input's human row: name, before, after, and whether it moved.
pub open spec fn human_row(before: Seq<(String, RootPin)>, name: Seq<char>, pin: RootPin) -> Seq<Seq<char>> {
    let prior = match pin_of(before, name) {
        Some(p) => p.display,
        None => None,
    };
    seq![name, shown_or_dash(prior), shown_or_dash(pin.display), if moved(before, name, pin) {
        "moved"@
    } else {
        "unchanged"@
    }]
}

/// One reported input's record.
pub open spec fn json_row(before: Seq<(String, RootPin)>, name: Seq<char>, pin: RootPin) -> Seq<char> {
    let prior = match pin_of(before, name) {
        Some(p) => p.display,
        None => None,
    };
    "{\"after\":"@ + quoted_or_null(pin.display) + ",\"before\":"@ + quoted_or_null(prior) + ",\"changed\":"@
        + (if moved(before, name, pin) {
        "true"@
    } else {
        "false"@
    }) + ",\"name\":"@ + json_quoted(name) + "}"@
}

/// The reported rows among the first `n` pins after the update, in the lock's order.
pub open spec fn reported_rows(before: Seq<(String, RootPin)>, after: Seq<(String, RootPin)>, requested: Seq<Seq<char>>, n: int) -> Seq<(Seq<char>, Seq<Seq<char>>)>
    decreases n,
{
    if n <= 0 || n > after.len() {
        Seq::empty()
    } else {
        let rest = reported_rows(before, after, requested, n - 1);
        let (name, pin) = after[n - 1];
        if reported(before, requested, name@, pin) {
            rest.push((json_row(before, name@, pin), human_row(before, name@, pin)))
        } else {
            rest
        }
    }
}

fn lookup(pins: &Vec<(String, RootPin)>, name: &str) -> (found: Option<usize>)
    ensures
        match found {
            Some(k) => k < pins@.len() && pin_of(pins@, name@) == Some(pins@[k as int].1),
            None => pin_of(pins@, name@) is None,
        },
{
    let mut i: usize = 0;
    assert(pins@.subrange(0, pins@.len() as int) =~= pins@);
    while i < pins.len()
        invariant
            i <= pins.len(),
            pin_of(pins@, name@) == pin_of(pins@.subrange(i as int, pins@.len() as int), name@),
        decreases pins.len() - i,
    {
        assert(pins@.subrange(i as int, pins@.len() as int).drop_first() =~= pins@.subrange(i + 1, pins@.len() as int));
        if same_text(pins[i].0.as_str(), name) {
            return Some(i);
        }
        i = i + 1;
    }
    None
}

fn listed(names: &Vec<String>, name: &str) -> (found: bool)
    ensures
        found == texts(names@).contains(name@),
{
    let mut i: usize = 0;
    while i < names.len()
        invariant
            i <= names.len(),
            forall|k: int| 0 <= k < i ==> names@[k]@ != name@,
        decreases names.len() - i,
    {
        if same_text(names[i].as_str(), name) {
            assert(texts(names@)[i as int] == name@);
            return true;
        }
        i = i + 1;
    }
    assert(!texts(names@).contains(name@)) by {
        if texts(names@).contains(name@) {
            let k = choose|k: int| 0 <= k < texts(names@).len() && texts(names@)[k] == name@;
            assert(names@[k]@ == name@);
        }
    }
    false
}

fn dash_or(t: &Option<String>) -> (s: String)
    ensures
        s@ == shown_or_dash(*t),
{
    match t {
        Some(s) => s.clone(),
        None => "-".to_owned(),
    }
}

fn quoted_text_or_null(t: &Option<String>) -> (s: String)
    ensures
        s@ == quoted_or_null(*t),
{
    match t {
        Some(s) => json_string(s.as_str()),
        None => "null".to_owned(),
    }
}

/// The rows an update reports, as records and as human rows, from the root pins before and
/// after it, in the lock's order.
pub fn derive_rows(before: &Vec<(String, RootPin)>, after: &Vec<(String, RootPin)>, requested: &Vec<String>) -> (rows: (Vec<String>, Vec<Vec<String>>))
    requires
        pins_keyed(before@),
        pins_keyed(after@),
    ensures
        rows.0@.len() == rows.1@.len(),
        rows.0@.len() == reported_rows(before@, after@, texts(requested@), after@.len() as int).len(),
        forall|k: int| 0 <= k < rows.0@.len() ==> {
            &&& #[trigger] rows.0@[k]@ == reported_rows(before@, after@, texts(requested@), after@.len() as int)[k].0
            &&& texts(rows.1@[k]@) == reported_rows(before@, after@, texts(requested@), after@.len() as int)[k].1
        },
{
    let ghost req = texts(requested@);
    let mut records: Vec<String> = Vec::new();
    let mut human: Vec<Vec<String>> = Vec::new();
    let mut i: usize = 0;
    while i < after.len()
        invariant
            i <= after.len(),
            req == texts(requested@),
            records@.len() == human@.len(),
            records@.len() == reported_rows(before@, after@, req, i as int).len(),
            forall|k: int| 0 <= k < records@.len() ==> {
                &&& #[trigger] records@[k]@ == reported_rows(before@, after@, req, i as int)[k].0
                &&& texts(human@[k]@) == reported_rows(before@, after@, req, i as int)[k].1
            },
        decreases after.len() - i,
    {
        let (name, pin) = &after[i];
        let prior = lookup(before, name.as_str());
        let changed = match prior {
            Some(k) => !same_text(before[k].1.fingerprint.as_str(), pin.fingerprint.as_str()),
            None => true,
        };
        let asked = requested.len() == 0 || listed(requested, name.as_str());
        let ghost rows_before = reported_rows(before@, after@, req, i as int);
        if asked || changed {
            let previous: Option<String> = match prior {
                Some(k) => match &before[k].1.display {
                    Some(d) => Some(d.clone()),
                    None => None,
                },
                None => None,
            };
            let mut record = String::new();
            record.append("{\"after\":");
            record.append(quoted_text_or_null(&pin.display).as_str());
            record.append(",\"before\":");
            record.append(quoted_text_or_null(&previous).as_str());
            record.append(",\"changed\":");
            if changed {
                record.append("true");
            } else {
                record.append("false");
            }
            record.append(",\"name\":");
            record.append(json_string(name.as_str()).as_str());
            record.append("}");
            let mut row: Vec<String> = Vec::new();
            row.push(name.clone());
            row.push(dash_or(&previous));
            row.push(dash_or(&pin.display));
            if changed {
                row.push("moved".to_owned());
            } else {
                row.push("unchanged".to_owned());
            }
            assert(texts(row@) =~= human_row(before@, name@, *pin));
            assert(record@ == json_row(before@, name@, *pin));
            let ghost old_records = records@;
            let ghost old_human = human@;
            records.push(record);
            human.push(row);
            let ghost next = rows_before.push((json_row(before@, name@, *pin), human_row(before@, name@, *pin)));
            assert(reported_rows(before@, after@, req, i + 1) == next);
            assert forall|k: int| 0 <= k < records@.len() implies {
                &&& #[trigger] records@[k]@ == next[k].0
                &&& texts(human@[k]@) == next[k].1
            } by {
                if k < old_records.len() {
                    assert(records@[k] == old_records[k]);
                    assert(human@[k] == old_human[k]);
                    assert(old_records[k]@ == rows_before[k].0);
                    assert(next[k] == rows_before[k]);
                } else {
                    assert(k == old_records.len());
                    assert(next[k] == (json_row(before@, name@, *pin), human_row(before@, name@, *pin)));
                }
            }
        } else {
            assert(!reported(before@, req, name@, *pin));
            assert(reported_rows(before@, after@, req, i + 1) == rows_before);
            assert forall|k: int| 0 <= k < records@.len() implies {
                &&& #[trigger] records@[k]@ == rows_before[k].0
                &&& texts(human@[k]@) == rows_before[k].1
            } by {
                assert(records@[k]@ == reported_rows(before@, after@, req, i as int)[k].0);
            }
        }
        assert(forall|k: int| 0 <= k < records@.len() ==> {
            &&& #[trigger] records@[k]@ == reported_rows(before@, after@, req, i + 1)[k].0
            &&& texts(human@[k]@) == reported_rows(before@, after@, req, i + 1)[k].1
        });
        i = i + 1;
    }
    (records, human)
}

/// The stderr notes of an update: the pin it created, and the base whose own lock holds pins.
pub open spec fn notes_text(created: bool, owned_path: Seq<char>, locked_base: Option<Seq<char>>) -> Seq<char> {
    (if created {
        "created the pin for this target: "@ + owned_path + "\n"@
    } else {
        Seq::empty()
    }) + match locked_base {
        Some(name) => "the base `"@ + name
            + "` carries its own `flake.lock`; the pins it holds re-seed every re-resolution and move only when that file does\n"@,
        None => Seq::empty(),
    }
}

/// The notes for an update that created the pin at `owned_path` (when `created`), over a base
/// named `locked_base` that carries its own `flake.lock` (when there is one).
pub fn notes_for(created: bool, owned_path: &str, locked_base: Option<&str>) -> (notes: String)
    ensures
        notes@ == notes_text(created, owned_path@, match locked_base {
            Some(n) => Some(n@),
            None => None,
        }),
{
    let mut first = String::new();
    if created {
        first.append("created the pin for this target: ");
        first.append(owned_path);
        first.append("\n");
    }
    let mut second = String::new();
    match locked_base {
        Some(name) => {
            second.append("the base `");
            second.append(name);
            second.append("` carries its own `flake.lock`; the pins it holds re-seed every re-resolution and move only when that file does\n");
        },
        None => {},
    }
    first.append(second.as_str());
    first
}

/// The refusal of an update while a team override lock is in force: both files named, the one
/// read and the one this update would have written.
pub fn override_refusal(override_path: &str, owned_path: &str) -> (f: Failure)
    ensures
        diagnostic_is(f, Namespace::Lock, "override-in-force"@, "a team override lock is in force"@, (false, override_path@),
            "`"@ + override_path@ + "` is read-only to the tool and shadows `"@ + owned_path@
                + "`, which this update would have written"@, ExitKind::Config,
            "moving a shared pin is the team's own act, outside vivarium"@),
{
    let mut why = String::new();
    why.append("`");
    why.append(override_path);
    why.append("` is read-only to the tool and shadows `");
    why.append(owned_path);
    why.append("`, which this update would have written");
    diagnosed(
        Namespace::Lock,
        "override-in-force",
        "a team override lock is in force".to_owned(),
        Locus::File(override_path.to_owned()),
        why,
        ExitKind::Config,
    ).with_hint("moving a shared pin is the team's own act, outside vivarium".to_owned())
}

/// The arguments of the re-resolution: `nix flake update` on the translated targets, under the
/// evaluator's feature flags, reading the private tree and writing the staged lock, with the
/// owned lock as the reference only when one is in force.
pub open spec fn update_arguments_spec(targets: Seq<Seq<char>>, features: Seq<Seq<char>>, directory: Seq<char>, staged: Seq<char>, reference: Option<Seq<char>>) -> Seq<Seq<char>> {
    seq!["flake"@, "update"@] + targets + features + seq!["--flake"@, directory, "--output-lock-file"@, staged]
        + match reference {
        Some(r) => seq!["--reference-lock-file"@, r],
        None => Seq::empty(),
    }
}

fn push_all(out: &mut Vec<String>, items: &Vec<String>)
    ensures
        texts(final(out)@) == texts(old(out)@) + texts(items@),
{
    let ghost start = texts(out@);
    let mut i: usize = 0;
    while i < items.len()
        invariant
            i <= items.len(),
            texts(out@) == start + texts(items@).subrange(0, i as int),
        decreases items.len() - i,
    {
        let ghost before = texts(out@);
        out.push(items[i].clone());
        assert(texts(out@) =~= before.push(items@[i as int]@));
        assert(texts(items@).subrange(0, i + 1) =~= texts(items@).subrange(0, i as int).push(items@[i as int]@));
        i = i + 1;
    }
    assert(texts(items@).subrange(0, items@.len() as int) =~= texts(items@));
}

/// The re-resolution's arguments, after the program name.
pub fn update_arguments(targets: &Vec<String>, features: &Vec<String>, directory: &str, staged: &str, reference: Option<&str>) -> (args: Vec<String>)
    ensures
        texts(args@) == update_arguments_spec(texts(targets@), texts(features@), directory@, staged@, match reference {
            Some(r) => Some(r@),
            None => None,
        }),
{
    let mut args: Vec<String> = Vec::new();
    args.push("flake".to_owned());
    args.push("update".to_owned());
    assert(texts(args@) =~= seq!["flake"@, "update"@]);
    push_all(&mut args, targets);
    push_all(&mut args, features);
    let ghost head = texts(args@);
    args.push("--flake".to_owned());
    args.push(directory.to_owned());
    args.push("--output-lock-file".to_owned());
    args.push(staged.to_owned());
    assert(texts(args@) =~= head + seq!["--flake"@, directory@, "--output-lock-file"@, staged@]);
    let ghost body = texts(args@);
    match reference {
        Some(r) => {
            args.push("--reference-lock-file".to_owned());
            args.push(r.to_owned());
            assert(texts(args@) =~= body + seq!["--reference-lock-file"@, r@]);
        },
        None => {
            assert(texts(args@) =~= body + Seq::<Seq<char>>::empty());
        },
    }
    args
}

/// What a re-resolution that could not be run costs: a permission the command lacks, or else an
/// unavailable tool.
pub fn update_spawn_failure(permission_denied: bool, error: String) -> (f: Failure)
    ensures
        plain_diagnostic(f, Namespace::Store, "update-unavailable"@, "could not run `nix flake update`"@,
            "input re-resolution"@, error@, if permission_denied {
            ExitKind::NoPerm
        } else {
            ExitKind::Unavailable
        }),
{
    let code = if permission_denied {
        ExitKind::NoPerm
    } else {
        ExitKind::Unavailable
    };
    diagnosed(
        Namespace::Store,
        "update-unavailable",
        "could not run `nix flake update`".to_owned(),
        Locus::Named("input re-resolution".to_owned()),
        error,
        code,
    )
}

/// Whether a failed re-resolution's report says an input could not be reached, matched on the
/// lowercased message.
pub open spec fn names_unreachable(stderr: Seq<char>) -> bool {
    let lowered = lowercased(stderr);
    crate::stop::contains_text(lowered, "unable to download"@) || crate::stop::contains_text(lowered, "couldn't resolve host"@)
        || crate::stop::contains_text(lowered, "cannot fetch"@)
}

/// What a re-resolution that ran and failed costs: an input that could not be reached is
/// unavailable, anything else a fault of the tool; the report, trimmed, is the reason.
pub fn update_failure(stderr: &str) -> (f: Failure)
    ensures
        if names_unreachable(stderr@) {
            plain_diagnostic(f, Namespace::Store, "input-unreachable"@, "an input could not be reached to re-resolve"@,
                "input re-resolution"@, trim_spec(stderr@), ExitKind::Unavailable)
        } else {
            plain_diagnostic(f, Namespace::Store, "update-failed"@, "the input re-resolution failed"@,
                "input re-resolution"@, trim_spec(stderr@), ExitKind::Software)
        },
{
    let lowered = lowercase(stderr);
    let unreachable = contains(lowered.as_str(), "unable to download") || contains(lowered.as_str(), "couldn't resolve host")
        || contains(lowered.as_str(), "cannot fetch");
    let why = trim(stderr).to_owned();
    if unreachable {
        diagnosed(
            Namespace::Store,
            "input-unreachable",
            "an input could not be reached to re-resolve".to_owned(),
            Locus::Named("input re-resolution".to_owned()),
            why,
            ExitKind::Unavailable,
        )
    } else {
        diagnosed(
            Namespace::Store,
            "update-failed",
            "the input re-resolution failed".to_owned(),
            Locus::Named("input re-resolution".to_owned()),
            why,
            ExitKind::Software,
        )
    }
}

} // verus!
