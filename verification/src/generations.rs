//! Retained generations: which ones a prune unlinks, when a prune must refuse because the
//! running VM booted from one of them, and where `activate` and `rollback` move the `current`
//! pointer.
use vstd::prelude::*;
use crate::exit::ExitKind;
use crate::failure::{diagnosed, diagnostic_is, Failure, Locus, Namespace};
use crate::render::json_or_null;
use crate::text::{dec, json_quoted, json_string, push_decimal, texts};
use crate::timestamps::{parse_rfc3339_utc, utc_seconds};

verus! {

broadcast use vstd::seq_lib::group_seq_properties;

/// What a build wrote about itself when it was made.
#[derive(Debug)]
pub struct GenerationRecord {
    pub lock_digest: String,
    pub manifest: String,
    pub backend: String,
    /// When it was built, as `YYYY-MM-DDTHH:MM:SSZ`.
    pub built_at: String,
}

/// One retained generation, as the profile lists it.
#[derive(Debug)]
pub struct Generation {
    pub number: u64,
    /// Whether `current` points at it.
    pub current: bool,
    /// The build output, when its link still resolves.
    pub store_path: Option<String>,
    /// The build's record, where it could be read.
    pub record: Option<GenerationRecord>,
}

/// A generation's age, in seconds since the epoch it was built at: unknown without a record or
/// with a timestamp that does not read.
pub open spec fn built_at_seconds(g: Generation) -> Option<int> {
    match g.record {
        Some(r) => utc_seconds(r.built_at@),
        None => None,
    }
}

/// A generation copied.
pub fn copy_generation(g: &Generation) -> (c: Generation)
    ensures
        c == *g,
{
    Generation {
        number: g.number,
        current: g.current,
        store_path: match &g.store_path {
            Some(s) => Some(s.clone()),
            None => None,
        },
        record: match &g.record {
            Some(r) => Some(GenerationRecord {
                lock_digest: r.lock_digest.clone(),
                manifest: r.manifest.clone(),
                backend: r.backend.clone(),
                built_at: r.built_at.clone(),
            }),
            None => None,
        },
    }
}

/// Whether `number` is among the `keep` newest rows; the rows arrive oldest first.
pub open spec fn among_newest(rows: Seq<Generation>, keep: nat, number: u64) -> bool {
    exists|j: int| rows.len() - keep <= j < rows.len() && 0 <= j && #[trigger] rows[j].number == number
}

/// Whether a prune unlinks `g`: never the current one; under `--keep` anything outside the newest
/// `keep`; under `--older-than` anything built before the threshold, an unknown age being kept.
pub open spec fn pruned(rows: Seq<Generation>, keep: Option<u64>, older_than: Option<u64>, now: u64, g: Generation) -> bool {
    !g.current && match (keep, older_than) {
        (Some(k), None) => !among_newest(rows, k as nat, g.number),
        (None, Some(age)) => {
            let threshold = if now >= age {
                now - age
            } else {
                0
            };
            built_at_seconds(g) matches Some(built) && built < threshold
        },
        _ => false,
    }
}

/// The rows a prune selects, in their listed order.
pub open spec fn select_spec(rows: Seq<Generation>, keep: Option<u64>, older_than: Option<u64>, now: u64) -> Seq<Generation> {
    rows.filter(|g: Generation| pruned(rows, keep, older_than, now, g))
}

fn is_among_newest(rows: &Vec<Generation>, keep: u64, number: u64) -> (r: bool)
    ensures
        r == among_newest(rows@, keep as nat, number),
{
    let n = rows.len();
    let start: usize = if (keep as u128) >= (n as u128) {
        0
    } else {
        n - keep as usize
    };
    let mut j = start;
    while j < n
        invariant
            start <= j <= n,
            n == rows@.len(),
            start as int == (if keep >= n { 0 } else { n - keep }),
            forall|i: int| start <= i < j ==> rows@[i].number != number,
        decreases n - j,
    {
        if rows[j].number == number {
            return true;
        }
        j = j + 1;
    }
    assert forall|i: int| rows@.len() - keep <= i < rows@.len() && 0 <= i implies #[trigger] rows@[i].number != number by {
        assert(start <= i);
    }
    false
}

/// The rows `viv generations prune` unlinks.
pub fn select(rows: &Vec<Generation>, keep: Option<u64>, older_than: Option<u64>, now: u64) -> (selected: Vec<Generation>)
    ensures
        selected@ == select_spec(rows@, keep, older_than, now),
{
    let ghost pred = |g: Generation| pruned(rows@, keep, older_than, now, g);
    let threshold = if now >= (match older_than { Some(a) => a, None => 0 }) {
        now - match older_than {
            Some(a) => a,
            None => 0,
        }
    } else {
        0
    };
    let mut selected: Vec<Generation> = Vec::new();
    let mut i: usize = 0;
    while i < rows.len()
        invariant
            i <= rows.len(),
            pred == (|g: Generation| pruned(rows@, keep, older_than, now, g)),
            older_than matches Some(a) ==> threshold == (if now >= a { now - a } else { 0 }),
            selected@ == rows@.subrange(0, i as int).filter(pred),
        decreases rows.len() - i,
    {
        let row = &rows[i];
        let take = if row.current {
            false
        } else {
            match (keep, older_than) {
                (Some(k), None) => !is_among_newest(rows, k, row.number),
                (None, Some(_)) => match &row.record {
                    Some(r) => match parse_rfc3339_utc(r.built_at.as_str()) {
                        Some(built) => built < threshold,
                        None => false,
                    },
                    None => false,
                },
                _ => false,
            }
        };
        assert(take == pred(rows@[i as int]));
        assert(rows@.subrange(0, i + 1) =~= rows@.subrange(0, i as int).push(rows@[i as int]));
        proof {
            rows@.subrange(0, i as int).lemma_filter_push(rows@[i as int], pred);
        }
        if take {
            selected.push(copy_generation(row));
        }
        i = i + 1;
    }
    assert(rows@.subrange(0, rows@.len() as int) =~= rows@);
    selected
}

/// The current generation is never pruned, whatever the retention argument.
pub proof fn law_current_is_never_pruned(rows: Seq<Generation>, keep: Option<u64>, older_than: Option<u64>, now: u64, i: int)
    requires
        0 <= i < select_spec(rows, keep, older_than, now).len(),
    ensures
        !select_spec(rows, keep, older_than, now)[i].current,
{
    rows.lemma_filter_pred(|g: Generation| pruned(rows, keep, older_than, now, g), i);
}

/// `--keep n` never prunes any of the `n` newest generations.
pub proof fn law_keep_spares_the_newest(rows: Seq<Generation>, keep: u64, now: u64, i: int)
    requires
        0 <= i < select_spec(rows, Some(keep), None, now).len(),
    ensures
        !among_newest(rows, keep as nat, select_spec(rows, Some(keep), None, now)[i].number),
{
    rows.lemma_filter_pred(|g: Generation| pruned(rows, Some(keep), None, now, g), i);
}

/// `--older-than` prunes only generations whose age is known and past the window: an unknown age
/// is retained.
pub proof fn law_unknown_age_is_kept(rows: Seq<Generation>, age: u64, now: u64, i: int)
    requires
        0 <= i < select_spec(rows, None, Some(age), now).len(),
    ensures
        built_at_seconds(select_spec(rows, None, Some(age), now)[i]) matches Some(b) && b < now - age,
{
    rows.lemma_filter_pred(|g: Generation| pruned(rows, None, Some(age), now, g), i);
    let g = select_spec(rows, None, Some(age), now)[i];
    if let Some(r) = g.record {
        crate::timestamps::lemma_utc_seconds_nonnegative(r.built_at@);
    }
}

/// The newest retained generation older than `current`.
pub open spec fn last_below(retained: Seq<u64>, current: u64) -> Option<u64>
    decreases retained.len(),
{
    if retained.len() == 0 {
        None
    } else if retained.last() < current {
        Some(retained.last())
    } else {
        last_below(retained.drop_last(), current)
    }
}

/// Whether `f` is the unknown-generation refusal with this message and explanation.
pub open spec fn is_unknown_generation(f: Failure, message: Seq<char>, why: Seq<char>) -> bool {
    match f {
        Failure::Diagnosed { diagnostic: d, code } => {
            &&& code == ExitKind::Usage
            &&& d.namespace == Namespace::State
            &&& d.id@ == "unknown-generation"@
            &&& d.what@ == message
            &&& (match d.locus {
                Locus::Named(n) => n@ == "build history"@,
                Locus::File(_) => false,
            })
            &&& d.why@ == why
            &&& (match d.hint {
                Some(h) => h@ == "`viv generations list` names what is retained"@,
                None => false,
            })
        },
        Failure::Usage(_) => false,
    }
}

fn unknown_generation(message: String, why: &str) -> (f: Failure)
    ensures
        is_unknown_generation(f, message@, why@),
{
    diagnosed(
        Namespace::State,
        "unknown-generation",
        message,
        Locus::Named("build history".to_owned()),
        why.to_owned(),
        ExitKind::Usage,
    ).with_hint("`viv generations list` names what is retained".to_owned())
}

/// Where `activate <n>` (`number` given) or `rollback` (`number` absent) moves `current`:
/// the named generation when it is retained, or the newest retained one before `current`.
pub fn switch_target(retained: &Vec<u64>, number: Option<u64>, current: Option<u64>) -> (r: Result<u64, Failure>)
    ensures
        match number {
            Some(n) => match r {
                Ok(t) => t == n && retained@.contains(n),
                Err(f) => !retained@.contains(n) && is_unknown_generation(f, "generation "@ + dec(n as nat) + " is not retained"@, "`activate` moves `current` to a retained generation"@),
            },
            None => match current {
                None => r matches Err(f) && is_unknown_generation(f, "this project has no current generation"@, "`rollback` steps back from `current`, which does not exist"@),
                Some(c) => match r {
                    Ok(t) => last_below(retained@, c) == Some(t),
                    Err(f) => last_below(retained@, c) is None && is_unknown_generation(f, "no generation is retained before "@ + dec(c as nat), "`rollback` needs an older generation to step back to"@),
                },
            },
        },
{
    match number {
        Some(n) => {
            let mut i: usize = 0;
            while i < retained.len()
                invariant
                    i <= retained.len(),
                    number == Some(n),
                    forall|j: int| 0 <= j < i ==> retained@[j] != n,
                decreases retained.len() - i,
            {
                if retained[i] == n {
                    assert(retained@.contains(n));
                    return Ok(n);
                }
                i = i + 1;
            }
            let mut message = String::new();
            message.append("generation ");
            push_decimal(&mut message, n);
            message.append(" is not retained");
            Err(unknown_generation(message, "`activate` moves `current` to a retained generation"))
        },
        None => {
            let c = match current {
                Some(c) => c,
                None => {
                    return Err(unknown_generation("this project has no current generation".to_owned(), "`rollback` steps back from `current`, which does not exist"));
                },
            };
            let mut k: usize = retained.len();
            assert(retained@.subrange(0, retained@.len() as int) =~= retained@);
            while k > 0
                invariant
                    k <= retained.len(),
                    number is None,
                    current == Some(c),
                    last_below(retained@, c) == last_below(retained@.subrange(0, k as int), c),
                decreases k,
            {
                let ghost prefix = retained@.subrange(0, k as int);
                assert(prefix.drop_last() =~= retained@.subrange(0, k - 1));
                if retained[k - 1] < c {
                    return Ok(retained[k - 1]);
                }
                k = k - 1;
            }
            let mut message = String::new();
            message.append("no generation is retained before ");
            push_decimal(&mut message, c);
            Err(unknown_generation(message, "`rollback` needs an older generation to step back to"))
        },
    }
}

/// A record field, or `-`.
pub open spec fn field_or_dash(t: Option<Seq<char>>) -> Seq<char> {
    match t {
        Some(s) => s,
        None => "-"@,
    }
}

/// One generation's human row: number, whether current, built at, lock digest, store path.
pub open spec fn generation_cells(g: Generation) -> Seq<Seq<char>> {
    seq![dec(g.number as nat), if g.current {
        "current"@
    } else {
        "-"@
    }, field_or_dash(match g.record {
        Some(r) => Some(r.built_at@),
        None => None,
    }), field_or_dash(match g.record {
        Some(r) => Some(r.lock_digest@),
        None => None,
    }), field_or_dash(match g.store_path {
        Some(p) => Some(p@),
        None => None,
    })]
}

fn dash_or_text(t: Option<&String>) -> (s: String)
    ensures
        s@ == field_or_dash(match t {
            Some(x) => Some(x@),
            None => None,
        }),
{
    match t {
        Some(x) => x.clone(),
        None => "-".to_owned(),
    }
}

/// The generations table's rows.
pub fn rows_human(rows: &Vec<Generation>) -> (table: Vec<Vec<String>>)
    ensures
        table@.len() == rows@.len(),
        forall|k: int| 0 <= k < rows@.len() ==> texts(#[trigger] table@[k]@) == generation_cells(rows@[k]),
{
    let mut table: Vec<Vec<String>> = Vec::new();
    let mut i: usize = 0;
    while i < rows.len()
        invariant
            i <= rows.len(),
            table@.len() == i,
            forall|k: int| 0 <= k < i ==> texts(#[trigger] table@[k]@) == generation_cells(rows@[k]),
        decreases rows.len() - i,
    {
        let g = &rows[i];
        let mut cells: Vec<String> = Vec::new();
        cells.push(crate::text::decimal(g.number));
        if g.current {
            cells.push("current".to_owned());
        } else {
            cells.push("-".to_owned());
        }
        cells.push(dash_or_text(match &g.record {
            Some(r) => Some(&r.built_at),
            None => None,
        }));
        cells.push(dash_or_text(match &g.record {
            Some(r) => Some(&r.lock_digest),
            None => None,
        }));
        cells.push(dash_or_text(match &g.store_path {
            Some(p) => Some(p),
            None => None,
        }));
        assert(texts(cells@) =~= generation_cells(*g));
        table.push(cells);
        i = i + 1;
    }
    table
}

/// One generation's record: all seven keys, `null` for what a row cannot fill honestly; the
/// manifest falls back to the sandbox's own name.
pub open spec fn generation_object(g: Generation, sandbox_id: Seq<char>) -> Seq<char> {
    "{\"backend\":"@ + json_or_null(match g.record {
        Some(r) => Some(r.backend@),
        None => None,
    }) + ",\"built_at\":"@ + json_or_null(match g.record {
        Some(r) => Some(r.built_at@),
        None => None,
    }) + ",\"current\":"@ + (if g.current {
        "true"@
    } else {
        "false"@
    }) + ",\"lock_digest\":"@ + json_or_null(match g.record {
        Some(r) => Some(r.lock_digest@),
        None => None,
    }) + ",\"manifest\":"@ + json_quoted(match g.record {
        Some(r) => r.manifest@,
        None => sandbox_id,
    }) + ",\"number\":"@ + dec(g.number as nat) + ",\"store_path\":"@ + json_or_null(match g.store_path {
        Some(p) => Some(p@),
        None => None,
    }) + "}"@
}

fn quoted_text(t: Option<&String>) -> (s: String)
    ensures
        s@ == json_or_null(match t {
            Some(x) => Some(x@),
            None => None,
        }),
{
    match t {
        Some(x) => json_string(x.as_str()),
        None => "null".to_owned(),
    }
}

fn generation_json(g: &Generation, sandbox_id: &str) -> (text: String)
    ensures
        text@ == generation_object(*g, sandbox_id@),
{
    let mut text = String::new();
    text.append("{\"backend\":");
    text.append(quoted_text(match &g.record {
        Some(r) => Some(&r.backend),
        None => None,
    }).as_str());
    text.append(",\"built_at\":");
    text.append(quoted_text(match &g.record {
        Some(r) => Some(&r.built_at),
        None => None,
    }).as_str());
    text.append(",\"current\":");
    if g.current {
        text.append("true");
    } else {
        text.append("false");
    }
    text.append(",\"lock_digest\":");
    text.append(quoted_text(match &g.record {
        Some(r) => Some(&r.lock_digest),
        None => None,
    }).as_str());
    text.append(",\"manifest\":");
    let manifest = match &g.record {
        Some(r) => json_string(r.manifest.as_str()),
        None => json_string(sandbox_id),
    };
    text.append(manifest.as_str());
    text.append(",\"number\":");
    text.append(crate::text::decimal(g.number).as_str());
    text.append(",\"store_path\":");
    text.append(quoted_text(match &g.store_path {
        Some(p) => Some(p),
        None => None,
    }).as_str());
    text.append("}");
    text
}

/// The generations' records, one per row.
pub fn rows_json(rows: &Vec<Generation>, sandbox_id: &str) -> (records: Vec<String>)
    ensures
        records@.len() == rows@.len(),
        forall|k: int| 0 <= k < rows@.len() ==> (#[trigger] records@[k])@ == generation_object(rows@[k], sandbox_id@),
{
    let mut records: Vec<String> = Vec::new();
    let mut i: usize = 0;
    while i < rows.len()
        invariant
            i <= rows.len(),
            records@.len() == i,
            forall|k: int| 0 <= k < i ==> (#[trigger] records@[k])@ == generation_object(rows@[k], sandbox_id@),
        decreases rows.len() - i,
    {
        records.push(generation_json(&rows[i], sandbox_id));
        i = i + 1;
    }
    records
}

/// The first of `rows`, from `i` on, whose build output is `booted`.
pub open spec fn first_booted(rows: Seq<Generation>, booted: Seq<char>, i: int) -> Option<u64>
    decreases rows.len() - i,
{
    if i < 0 || i >= rows.len() {
        None
    } else if rows[i].store_path matches Some(p) && p@ == booted {
        Some(rows[i].number)
    } else {
        first_booted(rows, booted, i + 1)
    }
}

/// The guard a prune keeps for a running VM: refused whole, rather than trimmed around, when the
/// selection holds the generation the VM booted from, because that generation's root is what keeps
/// the running guest's own closure out of a collection's reach.
pub fn prune_guard(selected: &Vec<Generation>, running: bool, booted: Option<&str>) -> (r: Result<(), Failure>)
    ensures
        match booted {
            Some(b) => if running && first_booted(selected@, b@, 0) is Some {
                r matches Err(f) && diagnostic_is(f, Namespace::Vm, "generation-in-use"@, "generation "@
                    + dec(first_booted(selected@, b@, 0)->0 as nat) + " is what the running VM was booted from"@,
                    (true, "build history"@),
                    "its root is what keeps the running guest's own closure out of a collection's reach (ADR-0085)"@,
                    ExitKind::TempFail, "`viv stop` first, or keep more generations"@)
            } else {
                r is Ok
            },
            None => r is Ok,
        },
{
    if !running {
        return Ok(());
    }
    let b = match booted {
        Some(b) => b,
        None => return Ok(()),
    };
    let mut i: usize = 0;
    while i < selected.len()
        invariant
            i <= selected.len(),
            running,
            booted == Some(b),
            first_booted(selected@, b@, 0) == first_booted(selected@, b@, i as int),
        decreases selected.len() - i,
    {
        let hit = match &selected[i].store_path {
            Some(p) => crate::lifecycle::same_text(p.as_str(), b),
            None => false,
        };
        if hit {
            assert(first_booted(selected@, b@, i as int) == Some(selected@[i as int].number));
            let mut what = String::new();
            what.append("generation ");
            push_decimal(&mut what, selected[i].number);
            what.append(" is what the running VM was booted from");
            let f = diagnosed(
                Namespace::Vm,
                "generation-in-use",
                what,
                Locus::Named("build history".to_owned()),
                "its root is what keeps the running guest's own closure out of a collection's reach (ADR-0085)".to_owned(),
                ExitKind::TempFail,
            ).with_hint("`viv stop` first, or keep more generations".to_owned());
            return Err(f);
        }
        i = i + 1;
    }
    Ok(())
}

} // verus!
