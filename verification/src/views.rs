//! The human renderings of the reader verbs: help, the binding record, the manifest library,
//! the volume and generation tables, the provenance view, and the doctor catalog.
use vstd::prelude::*;
use crate::doctor::{severity_text, Probe};
use crate::lifecycle::DeclaredResources;
use crate::manifest::Manifest;
use crate::paths::XdgRoots;
use crate::render::{bytes_text, push_bytes};
use crate::tables::{columns, columns_text, grid, labelled, record, record_text};
use crate::text::{dec, joined, pad_right, push_decimal, push_padded, texts};

verus! {

/// The published verbs: name, usage, and what each does.
pub open spec fn commands_spec() -> Seq<(Seq<char>, Seq<char>, Seq<char>)> {
    seq![
        ("config"@, crate::grammar::CONFIG_USAGE@, "show the binding, its paths, and the merged configuration"@),
        ("manifest"@, crate::grammar::MANIFEST_USAGE@, "list and show the manifest library"@),
        ("start"@, crate::grammar::START_USAGE@, "evaluate, build, and boot this project's VM"@),
        ("status"@, crate::grammar::STATUS_USAGE@, "report what the VM is doing"@),
        ("shell"@, crate::grammar::SHELL_USAGE@, "open a shell inside the guest"@),
        ("exec"@, crate::grammar::EXEC_USAGE@, "run one command inside the guest"@),
        ("stop"@, crate::grammar::STOP_USAGE@, "bring the VM down"@),
        ("generations"@, crate::grammar::GENERATIONS_USAGE@, "list, switch, and prune retained builds"@),
        ("volume"@, crate::grammar::VOLUME_USAGE@, "list and prune this project's volumes"@),
        ("destroy"@, crate::grammar::DESTROY_USAGE@, "remove the VM and its state"@),
        ("gc"@, crate::grammar::GC_USAGE@, "collect unreferenced build outputs"@),
        ("doctor"@, crate::grammar::DOCTOR_USAGE@, "diagnose the host and project setup"@),
    ]
}

/// The published verbs, in the order help lists them.
pub fn commands() -> (table: Vec<(&'static str, &'static str, &'static str)>)
    ensures
        table@.map_values(|t: (&'static str, &'static str, &'static str)| (t.0@, t.1@, t.2@)) == commands_spec(),
{
    let mut table: Vec<(&'static str, &'static str, &'static str)> = Vec::new();
    table.push(("config", crate::grammar::CONFIG_USAGE, "show the binding, its paths, and the merged configuration"));
    table.push(("manifest", crate::grammar::MANIFEST_USAGE, "list and show the manifest library"));
    table.push(("start", crate::grammar::START_USAGE, "evaluate, build, and boot this project's VM"));
    table.push(("status", crate::grammar::STATUS_USAGE, "report what the VM is doing"));
    table.push(("shell", crate::grammar::SHELL_USAGE, "open a shell inside the guest"));
    table.push(("exec", crate::grammar::EXEC_USAGE, "run one command inside the guest"));
    table.push(("stop", crate::grammar::STOP_USAGE, "bring the VM down"));
    table.push(("generations", crate::grammar::GENERATIONS_USAGE, "list, switch, and prune retained builds"));
    table.push(("volume", crate::grammar::VOLUME_USAGE, "list and prune this project's volumes"));
    table.push(("destroy", crate::grammar::DESTROY_USAGE, "remove the VM and its state"));
    table.push(("gc", crate::grammar::GC_USAGE, "collect unreferenced build outputs"));
    table.push(("doctor", crate::grammar::DOCTOR_USAGE, "diagnose the host and project setup"));
    assert(table@.map_values(|t: (&'static str, &'static str, &'static str)| (t.0@, t.1@, t.2@)) =~= commands_spec());
    table
}

/// The first entry of the table named `verb`.
pub open spec fn command_named(table: Seq<(Seq<char>, Seq<char>, Seq<char>)>, verb: Seq<char>, i: int) -> Option<(Seq<char>, Seq<char>, Seq<char>)>
    decreases table.len() - i,
{
    if i < 0 || i >= table.len() {
        None
    } else if table[i].0 == verb {
        Some(table[i])
    } else {
        command_named(table, verb, i + 1)
    }
}

/// The summary's list of verbs, from the first `n` entries.
pub open spec fn command_lines(table: Seq<(Seq<char>, Seq<char>, Seq<char>)>, n: int) -> Seq<char>
    decreases n,
{
    if n <= 0 || n > table.len() {
        Seq::empty()
    } else {
        command_lines(table, n - 1) + "  "@ + pad_right(table[n - 1].0, 12) + " "@ + table[n - 1].2 + "\n"@
    }
}

/// The global flags help lists.
pub open spec fn flags_spec() -> Seq<(Seq<char>, Seq<char>)> {
    seq![
        ("-v, --verbose"@, "more stderr detail; stackable"@),
        ("-q, --quiet"@, "suppress progress; errors still print"@),
        ("-h, --help"@, "this summary, or one command's usage"@),
        ("--version"@, "the version"@),
    ]
}

pub open spec fn flag_lines(flags: Seq<(Seq<char>, Seq<char>)>, n: int) -> Seq<char>
    decreases n,
{
    if n <= 0 || n > flags.len() {
        Seq::empty()
    } else {
        flag_lines(flags, n - 1) + "  "@ + pad_right(flags[n - 1].0, 14) + " "@ + flags[n - 1].1 + "\n"@
    }
}

/// `viv --help` and `viv <verb> --help`: one verb's usage, or the summary; an unknown verb gets
/// the summary, because help never fails.
pub open spec fn help_spec(verb: Option<Seq<char>>) -> Seq<char> {
    let table = commands_spec();
    match (match verb {
        Some(v) => command_named(table, v, 0),
        None => None,
    }) {
        Some((name, usage, blurb)) => name + " — "@ + blurb + "\n\n"@ + "usage:"@ + " "@ + usage + "\n"@,
        None => "viv"@ + " — each project in its own microVM\n\n"@ + "usage:"@ + " viv <command> [options]\n\n"@
            + "commands:"@ + "\n"@ + command_lines(table, table.len() as int) + "\n"@ + "global flags:"@ + "\n"@
            + flag_lines(flags_spec(), 4) + "\n"@
            + "run `viv <command> --help` for one command's flags; `--json` on a data command emits one machine record on stdout"@
            + "\n"@,
    }
}

fn same(a: &str, b: &str) -> (r: bool)
    ensures
        r == (a@ == b@),
{
    crate::lifecycle::same_text(a, b)
}

/// The help text.
pub fn help_human(verb: Option<&str>) -> (text: String)
    ensures
        text@ == help_spec(match verb {
            Some(v) => Some(v@),
            None => None,
        }),
{
    let table = commands();
    let ghost spec_table = commands_spec();
    let ghost tv = table@.map_values(|t: (&'static str, &'static str, &'static str)| (t.0@, t.1@, t.2@));
    match verb {
        Some(v) => {
            let mut i: usize = 0;
            while i < table.len()
                invariant
                    i <= table.len(),
                    tv == table@.map_values(|t: (&'static str, &'static str, &'static str)| (t.0@, t.1@, t.2@)),
                    tv == spec_table,
                    spec_table == commands_spec(),
                    verb == Some(v),
                    command_named(tv, v@, 0) == command_named(tv, v@, i as int),
                decreases table.len() - i,
            {
                let (name, usage, blurb) = table[i];
                assert(tv[i as int] == (name@, usage@, blurb@));
                if same(name, v) {
                    assert(command_named(tv, v@, i as int) == Some(tv[i as int]));
                    let mut text = String::new();
                    text.append(name);
                    text.append(" — ");
                    text.append(blurb);
                    text.append("\n\n");
                    text.append("usage:");
                    text.append(" ");
                    text.append(usage);
                    text.append("\n");
                    return text;
                }
                i = i + 1;
            }
        },
        None => {},
    }
    let mut text = String::new();
    text.append("viv");
    text.append(" — each project in its own microVM\n\n");
    text.append("usage:");
    text.append(" viv <command> [options]\n\n");
    text.append("commands:");
    text.append("\n");
    let ghost head = text@;
    let mut k: usize = 0;
    while k < table.len()
        invariant
            k <= table.len(),
            tv == table@.map_values(|t: (&'static str, &'static str, &'static str)| (t.0@, t.1@, t.2@)),
            text@ == head + command_lines(tv, k as int),
        decreases table.len() - k,
    {
        let (name, _usage, blurb) = table[k];
        assert(tv[k as int] == (name@, _usage@, blurb@));
        text.append("  ");
        push_padded(&mut text, name, 12);
        text.append(" ");
        text.append(blurb);
        text.append("\n");
        k = k + 1;
    }
    text.append("\n");
    text.append("global flags:");
    text.append("\n");
    let mut flags: Vec<(&'static str, &'static str)> = Vec::new();
    flags.push(("-v, --verbose", "more stderr detail; stackable"));
    flags.push(("-q, --quiet", "suppress progress; errors still print"));
    flags.push(("-h, --help", "this summary, or one command's usage"));
    flags.push(("--version", "the version"));
    let ghost fv = flags@.map_values(|t: (&'static str, &'static str)| (t.0@, t.1@));
    assert(fv =~= flags_spec());
    let ghost mid = text@;
    let mut f: usize = 0;
    while f < flags.len()
        invariant
            f <= flags.len(),
            flags.len() == 4,
            fv == flags@.map_values(|t: (&'static str, &'static str)| (t.0@, t.1@)),
            text@ == mid + flag_lines(fv, f as int),
        decreases flags.len() - f,
    {
        let (flag, blurb) = flags[f];
        assert(fv[f as int] == (flag@, blurb@));
        text.append("  ");
        push_padded(&mut text, flag, 14);
        text.append(" ");
        text.append(blurb);
        text.append("\n");
        f = f + 1;
    }
    text.append("\n");
    text.append("run `viv <command> --help` for one command's flags; `--json` on a data command emits one machine record on stdout");
    text.append("\n");
    text
}

/// `viv --help`'s text, answered before anything else can fail.
pub fn help_text(verb: Option<&str>) -> (text: String)
    ensures
        text@ == help_spec(match verb {
            Some(v) => Some(v@),
            None => None,
        }),
{
    help_human(verb)
}

/// The binding record's rows.
pub open spec fn binding_rows(manifest: Seq<char>, source: Seq<char>, roots: XdgRoots, flake: Seq<char>, lock: Seq<char>) -> Seq<(Seq<char>, Seq<char>)> {
    seq![
        ("manifest"@, manifest),
        ("source"@, source),
        ("config"@, roots.config@),
        ("state"@, roots.state@),
        ("data"@, roots.data@),
        ("cache"@, roots.cache@),
        ("flake"@, flake),
        ("lock"@, lock),
    ]
}

/// `viv config`: the binding record, one fact per line.
pub fn binding_human(manifest: &str, source: &str, roots: &XdgRoots, flake: &str, lock: &str) -> (text: String)
    ensures
        text@ == record_text(binding_rows(manifest@, source@, *roots, flake@, lock@), 8),
{
    let mut rows: Vec<(String, String)> = Vec::new();
    rows.push(("manifest".to_owned(), manifest.to_owned()));
    rows.push(("source".to_owned(), source.to_owned()));
    rows.push(("config".to_owned(), roots.config.clone()));
    rows.push(("state".to_owned(), roots.state.clone()));
    rows.push(("data".to_owned(), roots.data.clone()));
    rows.push(("cache".to_owned(), roots.cache.clone()));
    rows.push(("flake".to_owned(), flake.to_owned()));
    rows.push(("lock".to_owned(), lock.to_owned()));
    assert(labelled(rows@) =~= binding_rows(manifest@, source@, *roots, flake@, lock@));
    record(&rows)
}

/// Texts joined by a separator.
pub fn join_texts(parts: &Vec<String>, sep: &str) -> (text: String)
    ensures
        text@ == joined(texts(parts@), sep@),
{
    let ghost p = texts(parts@);
    let mut text = String::new();
    let mut i: usize = 0;
    while i < parts.len()
        invariant
            i <= parts.len(),
            p == texts(parts@),
            text@ == joined(p.subrange(0, i as int), sep@),
        decreases parts.len() - i,
    {
        assert(p.subrange(0, i + 1).drop_last() =~= p.subrange(0, i as int));
        if i > 0 {
            text.append(sep);
        }
        text.append(parts[i].as_str());
        i = i + 1;
    }
    assert(p.subrange(0, p.len() as int) =~= p);
    text
}

/// One manifest of the library listing: its name, where it was found, and what it declares.
pub struct ManifestRow {
    pub name: String,
    pub path: String,
    pub manifest: Manifest,
}

/// A library row's cells: name and image, and the pieces when there are any.
pub open spec fn manifest_cells(r: ManifestRow) -> Seq<Seq<char>> {
    if r.manifest.pieces@.len() > 0 {
        seq![r.name@, r.manifest.image@, joined(texts(r.manifest.pieces@), ", "@)]
    } else {
        seq![r.name@, r.manifest.image@]
    }
}

/// `viv manifest list`: one row per manifest, nothing at all for an empty library.
pub fn manifest_list_human(rows: &Vec<ManifestRow>) -> (text: String)
    ensures
        text@ == columns_text(rows@.map_values(|r: ManifestRow| manifest_cells(r)), rows@.len() as int),
{
    let mut table: Vec<Vec<String>> = Vec::new();
    let mut i: usize = 0;
    while i < rows.len()
        invariant
            i <= rows.len(),
            grid(table@) == rows@.subrange(0, i as int).map_values(|r: ManifestRow| manifest_cells(r)),
        decreases rows.len() - i,
    {
        let row = &rows[i];
        let mut cells: Vec<String> = Vec::new();
        cells.push(row.name.clone());
        cells.push(row.manifest.image.clone());
        if row.manifest.pieces.len() > 0 {
            cells.push(join_texts(&row.manifest.pieces, ", "));
        }
        assert(texts(cells@) =~= manifest_cells(*row));
        let ghost before = table@;
        table.push(cells);
        assert(grid(table@) =~= grid(before).push(manifest_cells(*row)));
        assert(rows@.subrange(0, i + 1).map_values(|r: ManifestRow| manifest_cells(r)) =~= rows@.subrange(0, i as int).map_values(|r: ManifestRow| manifest_cells(r)).push(manifest_cells(rows@[i as int])));
        i = i + 1;
    }
    assert(rows@.subrange(0, rows@.len() as int) =~= rows@);
    columns(&table)
}

/// `viv volume list`: one row per line, nothing at all when there is nothing to say.
pub fn volume_list_human(rows: &Vec<Vec<String>>) -> (text: String)
    ensures
        text@ == columns_text(grid(rows@), rows@.len() as int),
{
    columns(rows)
}

/// `viv generations list`: the same table, oldest first.
pub fn generations_list_human(rows: &Vec<Vec<String>>) -> (text: String)
    ensures
        text@ == columns_text(grid(rows@), rows@.len() as int),
{
    volume_list_human(rows)
}

/// Lines, each followed by a newline.
pub open spec fn lines_text(rows: Seq<Seq<char>>, n: int) -> Seq<char>
    decreases n,
{
    if n <= 0 || n > rows.len() {
        Seq::empty()
    } else {
        lines_text(rows, n - 1) + rows[n - 1] + "\n"@
    }
}

fn push_lines(out: &mut String, rows: &Vec<String>)
    ensures
        final(out)@ == old(out)@ + lines_text(texts(rows@), rows@.len() as int),
{
    let ghost start = out@;
    let mut i: usize = 0;
    while i < rows.len()
        invariant
            i <= rows.len(),
            out@ == start + lines_text(texts(rows@), i as int),
        decreases rows.len() - i,
    {
        out.append(rows[i].as_str());
        out.append("\n");
        i = i + 1;
    }
}

/// `viv volume prune`: the rows removed, then the measurement, which always prints.
pub fn volume_prune_human(rows: &Vec<String>, reclaimed_bytes: u64) -> (text: String)
    ensures
        text@ == lines_text(texts(rows@), rows@.len() as int) + "reclaimed\t"@ + dec(reclaimed_bytes as nat) + "\n"@,
{
    let mut text = String::new();
    push_lines(&mut text, rows);
    text.append("reclaimed\t");
    push_decimal(&mut text, reclaimed_bytes);
    text.append("\n");
    text
}

/// `viv volume trim`: one row per volume, then the figure in the table's units with its metric
/// named.
pub fn volume_trim_human(rows: &Vec<String>, reclaimed_bytes: u64) -> (text: String)
    ensures
        text@ == lines_text(texts(rows@), rows@.len() as int) + "reclaimed "@ + bytes_text(reclaimed_bytes as nat)
            + " of image allocation\n"@,
{
    let mut text = String::new();
    push_lines(&mut text, rows);
    text.append("reclaimed ");
    push_bytes(&mut text, reclaimed_bytes);
    text.append(" of image allocation\n");
    text
}

/// `viv generations prune`: the rows unlinked, then the count that stayed, which always prints.
pub fn generations_prune_human(rows: &Vec<Vec<String>>, kept: u64) -> (text: String)
    ensures
        text@ == columns_text(grid(rows@), rows@.len() as int) + "kept\t"@ + dec(kept as nat) + "\n"@,
{
    let mut text = columns(rows);
    text.append("kept\t");
    push_decimal(&mut text, kept);
    text.append("\n");
    text
}

/// `viv generations activate`/`rollback`: one line naming both ends of the move.
pub open spec fn switch_text(current: u64, previous: Option<u64>) -> Seq<char> {
    match previous {
        Some(p) => if p != current {
            "current: generation "@ + dec(p as nat) + " -> generation "@ + dec(current as nat) + "\n"@
        } else {
            "current: generation "@ + dec(current as nat) + "\n"@
        },
        None => "current: generation "@ + dec(current as nat) + "\n"@,
    }
}

pub fn generations_switch_human(current: u64, previous: Option<u64>) -> (text: String)
    ensures
        text@ == switch_text(current, previous),
{
    let mut text = String::new();
    text.append("current: generation ");
    match previous {
        Some(p) => {
            if p != current {
                push_decimal(&mut text, p);
                text.append(" -> generation ");
            }
        },
        None => {},
    }
    push_decimal(&mut text, current);
    text.append("\n");
    text
}

/// `viv update`: one line per reported input, then the lock that holds the result.
pub fn update_human(rows: &Vec<Vec<String>>, lock: &str) -> (text: String)
    ensures
        text@ == columns_text(grid(rows@), rows@.len() as int) + "lock\t"@ + lock@ + "\n"@,
{
    let mut text = volume_list_human(rows);
    text.append("lock\t");
    text.append(lock);
    text.append("\n");
    text
}

/// `viv gc`: the collector's own accounting line, or a fallback when it said nothing.
pub fn gc_human(summary: Option<&str>) -> (text: String)
    ensures
        text@ == (match summary {
            Some(s) => s@,
            None => "collected"@,
        }) + "\n"@,
{
    let mut text = String::new();
    match summary {
        Some(s) => text.append(s),
        None => text.append("collected"),
    }
    text.append("\n");
    text
}

/// `viv status -g`: the fleet table under its header, then the host line; an empty fleet (a
/// header alone) renders the host line alone.
pub fn fleet_human(rows: &Vec<Vec<String>>, host_line: &str) -> (text: String)
    ensures
        text@ == (if rows@.len() > 1 {
            columns_text(grid(rows@), rows@.len() as int) + "\n"@
        } else {
            Seq::empty()
        }) + host_line@ + "\n"@,
{
    let mut text = String::new();
    if rows.len() > 1 {
        let table = columns(rows);
        text.append(table.as_str());
        text.append("\n");
    }
    text.append(host_line);
    text.append("\n");
    text
}

/// The catalog's rows: id, category, scope, severity, title.
pub open spec fn probe_cells(p: Probe) -> Seq<Seq<char>> {
    seq![p.id@, p.category@, p.scope@, severity_text(p.severity), p.title@]
}

/// `viv doctor --list`: the catalog enumerated, nothing probed.
pub fn doctor_list_human(catalog: &Vec<Probe>) -> (text: String)
    ensures
        text@ == columns_text(catalog@.map_values(|p: Probe| probe_cells(p)), catalog@.len() as int),
{
    let mut table: Vec<Vec<String>> = Vec::new();
    let mut i: usize = 0;
    while i < catalog.len()
        invariant
            i <= catalog.len(),
            grid(table@) == catalog@.subrange(0, i as int).map_values(|p: Probe| probe_cells(p)),
        decreases catalog.len() - i,
    {
        let p = &catalog[i];
        let mut cells: Vec<String> = Vec::new();
        cells.push(p.id.clone());
        cells.push(p.category.clone());
        cells.push(p.scope.clone());
        cells.push(p.severity.as_str().to_owned());
        cells.push(p.title.clone());
        assert(texts(cells@) =~= probe_cells(*p));
        let ghost before = table@;
        table.push(cells);
        assert(grid(table@) =~= grid(before).push(probe_cells(*p)));
        assert(catalog@.subrange(0, i + 1).map_values(|p: Probe| probe_cells(p)) =~= catalog@.subrange(0, i as int).map_values(|p: Probe| probe_cells(p)).push(probe_cells(catalog@[i as int])));
        i = i + 1;
    }
    assert(catalog@.subrange(0, catalog@.len() as int) =~= catalog@);
    columns(&table)
}

} // verus!
