//! The fleet enumeration's judgments and lines: the near-ceiling mark, the missing-workspace
//! warning, the host line, and the fleet table's cells.
use vstd::prelude::*;
use crate::lifecycle::{state_text, Resources, State};
use crate::render::{bytes, bytes_text, duration, duration_text, push_bytes, MIB};
use crate::records::{string_list, strings_of};
use crate::status::{number_or_null, resources_text, runtime_object, runtime_json, RuntimeReadings};
use crate::tables::grid;
use crate::text::{dec, decimal, json_quoted, json_string, push_decimal, texts};

verus! {

/// `u64` saturating multiplication, as a number.
pub open spec fn saturating_product(a: u64, b: u64) -> nat {
    if a * b > u64::MAX {
        u64::MAX as nat
    } else {
        (a * b) as nat
    }
}

/// `u64::saturating_mul`.
pub fn saturating_mul(a: u64, b: u64) -> (p: u64)
    ensures
        p == saturating_product(a, b),
{
    match a.checked_mul(b) {
        Some(v) => v,
        None => u64::MAX,
    }
}

/// Measured use at or past 90% of a known, nonzero ceiling; an unknown half never marks.
pub open spec fn near_ceiling_spec(used: Option<u64>, ceiling_mib: Option<u64>) -> bool {
    match (used, ceiling_mib) {
        (Some(u), Some(mib)) => {
            let ceiling = saturating_product(mib, MIB);
            ceiling > 0 && saturating_product(u, 10) >= saturating_product(ceiling as u64, 9)
        },
        _ => false,
    }
}

/// The near-ceiling threshold.
pub fn near_ceiling(used: Option<u64>, ceiling_mib: Option<u64>) -> (near: bool)
    ensures
        near == near_ceiling_spec(used, ceiling_mib),
{
    match (used, ceiling_mib) {
        (Some(used), Some(mib)) => {
            let ceiling = saturating_mul(mib, MIB);
            ceiling > 0 && saturating_mul(used, 10) >= saturating_mul(ceiling, 9)
        },
        _ => false,
    }
}

/// The lines naming each missing declaration.
pub open spec fn missing_lines(missing: Seq<(Seq<char>, Seq<char>)>) -> Seq<char>
    decreases missing.len(),
{
    if missing.len() == 0 {
        Seq::empty()
    } else {
        missing_lines(missing.drop_last()) + "           "@ + missing.last().0 + "  →  "@ + missing.last().1 + "\n"@
    }
}

/// The warning for declared workspace directories that no longer exist: named, never removed.
pub open spec fn missing_note_text(missing: Seq<(Seq<char>, Seq<char>)>) -> Seq<char> {
    if missing.len() == 0 {
        Seq::empty()
    } else {
        "warning: "@ + dec(missing.len()) + " declared workspace director"@ + (if missing.len() == 1 {
            "y"@
        } else {
            "ies"@
        }) + " no longer exist"@ + (if missing.len() == 1 {
            "s"@
        } else {
            Seq::empty()
        }) + ":\n"@ + missing_lines(missing)
            + "         It may just be on an unmounted filesystem, so vivarium will not\n"@
            + "         remove or rewrite the manifest on its own.\n"@
    }
}

/// Some pairs of texts by value.
pub open spec fn pair_texts(v: Seq<(String, String)>) -> Seq<(Seq<char>, Seq<char>)> {
    v.map_values(|p: (String, String)| (p.0@, p.1@))
}

/// The missing-workspace warning.
pub fn missing_note(missing: &Vec<(String, String)>) -> (note: String)
    ensures
        note@ == missing_note_text(pair_texts(missing@)),
{
    let ghost m = pair_texts(missing@);
    let mut note = String::new();
    let n = missing.len();
    if n == 0 {
        return note;
    }
    note.append("warning: ");
    push_decimal(&mut note, n as u64);
    note.append(" declared workspace director");
    if n == 1 {
        note.append("y");
    } else {
        note.append("ies");
    }
    note.append(" no longer exist");
    if n == 1 {
        note.append("s");
    }
    note.append(":\n");
    let ghost head = note@;
    let mut i: usize = 0;
    while i < n
        invariant
            i <= n,
            n == missing.len(),
            m == pair_texts(missing@),
            note@ == head + missing_lines(m.subrange(0, i as int)),
        decreases n - i,
    {
        assert(m.subrange(0, i + 1).drop_last() =~= m.subrange(0, i as int));
        let (manifest, path) = &missing[i];
        note.append("           ");
        note.append(manifest.as_str());
        note.append("  →  ");
        note.append(path.as_str());
        note.append("\n");
        i = i + 1;
    }
    assert(m.subrange(0, n as int) =~= m);
    note.append("         It may just be on an unmounted filesystem, so vivarium will not\n");
    note.append("         remove or rewrite the manifest on its own.\n");
    note
}

/// The fleet's closing line, the pressure figure already spelled by the caller.
pub open spec fn host_line_text(available: Option<u64>, total: Option<u64>, pressure: Option<Seq<char>>) -> Seq<char> {
    let memory = match (available, total) {
        (Some(a), Some(t)) => bytes_text(a as nat) + " available of "@ + bytes_text(t as nat),
        _ => "memory reading unavailable"@,
    };
    match pressure {
        None => "host: "@ + memory,
        Some(p) => "host: "@ + memory + " - memory pressure (60s): "@ + p + "%"@,
    }
}

/// The host line: what is available of what is there, and the memory pressure when the host
/// exposes it.
pub fn host_line(available: Option<u64>, total: Option<u64>, pressure: Option<&str>) -> (line: String)
    ensures
        line@ == host_line_text(available, total, match pressure {
            Some(p) => Some(p@),
            None => None,
        }),
{
    let mut line = String::new();
    line.append("host: ");
    match (available, total) {
        (Some(a), Some(t)) => {
            push_bytes(&mut line, a);
            line.append(" available of ");
            push_bytes(&mut line, t);
        },
        _ => line.append("memory reading unavailable"),
    }
    match pressure {
        Some(p) => {
            line.append(" - memory pressure (60s): ");
            line.append(p);
            line.append("%");
        },
        None => {},
    }
    line
}

/// One enumerated sandbox.
pub struct FleetRow {
    pub manifest: String,
    /// The expanded declared workspaces, in manifest order.
    pub workspaces: Vec<String>,
    /// The declared workspace directories that no longer exist.
    pub path_missing: Vec<String>,
    pub state: State,
    pub stale: bool,
    pub generation: Option<u64>,
    pub uptime_seconds: Option<u64>,
    pub resources: Option<Resources>,
    pub readings: RuntimeReadings,
}

/// Every missing workspace of every row, beside the manifest that declares it.
pub open spec fn missing_of(rows: Seq<FleetRow>) -> Seq<(Seq<char>, Seq<char>)>
    decreases rows.len(),
{
    if rows.len() == 0 {
        Seq::empty()
    } else {
        let row = rows.last();
        missing_of(rows.drop_last()) + texts(row.path_missing@).map_values(|p: Seq<char>| (row.manifest@, p))
    }
}

/// The missing workspaces of a fleet, in row order.
pub fn missing_workspaces(rows: &Vec<FleetRow>) -> (missing: Vec<(String, String)>)
    ensures
        pair_texts(missing@) == missing_of(rows@),
{
    let mut missing: Vec<(String, String)> = Vec::new();
    let mut i: usize = 0;
    while i < rows.len()
        invariant
            i <= rows.len(),
            pair_texts(missing@) == missing_of(rows@.subrange(0, i as int)),
        decreases rows.len() - i,
    {
        assert(rows@.subrange(0, i + 1).drop_last() =~= rows@.subrange(0, i as int));
        let row = &rows[i];
        let ghost start = pair_texts(missing@);
        let ghost adds = texts(row.path_missing@).map_values(|p: Seq<char>| (row.manifest@, p));
        let mut j: usize = 0;
        while j < row.path_missing.len()
            invariant
                j <= row.path_missing.len(),
                adds == texts(row.path_missing@).map_values(|p: Seq<char>| (row.manifest@, p)),
                pair_texts(missing@) == start + adds.subrange(0, j as int),
            decreases row.path_missing.len() - j,
        {
            let ghost before = missing@;
            missing.push((row.manifest.clone(), row.path_missing[j].clone()));
            assert(pair_texts(missing@) =~= pair_texts(before).push((row.manifest@, row.path_missing@[j as int]@)));
            assert(adds.subrange(0, j + 1) =~= adds.subrange(0, j as int).push(adds[j as int]));
            j = j + 1;
        }
        assert(adds.subrange(0, adds.len() as int) =~= adds);
        i = i + 1;
    }
    assert(rows@.subrange(0, rows@.len() as int) =~= rows@);
    missing
}

/// A reading, or a dash where it is unavailable.
pub open spec fn or_dash(text: Option<Seq<char>>) -> Seq<char> {
    match text {
        Some(t) => t,
        None => "-"@,
    }
}

/// One fleet row's cells: project, state, memory used beside the ceiling, vCPU, disk, sessions,
/// uptime, and the near-ceiling mark when it applies.
pub open spec fn fleet_cells(row: FleetRow) -> Seq<Seq<char>> {
    let used = or_dash(match row.readings.mem_used_bytes {
        Some(b) => Some(bytes_text(b as nat)),
        None => None,
    });
    let ceiling = or_dash(match row.resources {
        Some(r) => Some(bytes_text(r.mem_mib as nat * 1024 * 1024)),
        None => None,
    });
    let cells = seq![
        row.manifest@,
        state_text(row.state),
        used + " / "@ + ceiling,
        or_dash(match row.resources {
            Some(r) => Some(dec(r.vcpu as nat)),
            None => None,
        }),
        match (row.readings.disk_allocated_bytes, row.readings.disk_virtual_bytes) {
            (Some(a), Some(v)) => bytes_text(a as nat) + " / "@ + bytes_text(v as nat),
            _ => "- / -"@,
        },
        or_dash(match row.readings.sessions {
            Some(s) => Some(dec(s as nat)),
            None => None,
        }),
        or_dash(match row.uptime_seconds {
            Some(u) => Some(duration_text(u as nat)),
            None => None,
        }),
    ];
    if near_ceiling_spec(row.readings.mem_used_bytes, match row.resources {
        Some(r) => Some(r.mem_mib),
        None => None,
    }) {
        cells.push("(near ceiling)"@)
    } else {
        cells
    }
}

/// The table's header row.
pub open spec fn fleet_header() -> Seq<Seq<char>> {
    seq!["PROJECT"@, "STATE"@, "MEM (used/ceiling)"@, "VCPU"@, "DISK (alloc/virtual)"@, "SESS"@, "UP"@]
}

/// The fleet table's cells, header first; an empty fleet has no table at all.
pub open spec fn fleet_table(rows: Seq<FleetRow>) -> Seq<Seq<Seq<char>>> {
    if rows.len() == 0 {
        Seq::empty()
    } else {
        seq![fleet_header()] + rows.map_values(|r: FleetRow| fleet_cells(r))
    }
}

/// Whether a row's ceiling, in bytes, fits the counter it is computed in.
pub open spec fn ceiling_fits(row: FleetRow) -> bool {
    match row.resources {
        Some(r) => r.mem_mib * 1024 * 1024 <= u64::MAX,
        None => true,
    }
}

fn dash_or(text: Option<String>) -> (s: String)
    ensures
        s@ == or_dash(match text {
            Some(t) => Some(t@),
            None => None,
        }),
{
    match text {
        Some(t) => t,
        None => "-".to_owned(),
    }
}

fn fleet_row_cells(row: &FleetRow) -> (cells: Vec<String>)
    requires
        ceiling_fits(*row),
    ensures
        texts(cells@) == fleet_cells(*row),
{
    let used = dash_or(match row.readings.mem_used_bytes {
        Some(b) => Some(bytes(b)),
        None => None,
    });
    let ceiling = dash_or(match row.resources {
        Some(r) => Some(bytes(r.mem_mib * 1024 * 1024)),
        None => None,
    });
    let mut memory = used;
    memory.append(" / ");
    memory.append(ceiling.as_str());
    let vcpu = dash_or(match row.resources {
        Some(r) => Some(decimal(r.vcpu)),
        None => None,
    });
    let disk = match (row.readings.disk_allocated_bytes, row.readings.disk_virtual_bytes) {
        (Some(a), Some(v)) => {
            let mut d = bytes(a);
            d.append(" / ");
            push_bytes(&mut d, v);
            d
        },
        _ => "- / -".to_owned(),
    };
    let sessions = dash_or(match row.readings.sessions {
        Some(s) => Some(decimal(s)),
        None => None,
    });
    let up = dash_or(match row.uptime_seconds {
        Some(u) => Some(duration(u)),
        None => None,
    });
    let mut cells: Vec<String> = Vec::new();
    cells.push(row.manifest.clone());
    cells.push(row.state.as_str().to_owned());
    cells.push(memory);
    cells.push(vcpu);
    cells.push(disk);
    cells.push(sessions);
    cells.push(up);
    let near = near_ceiling(row.readings.mem_used_bytes, match row.resources {
        Some(r) => Some(r.mem_mib),
        None => None,
    });
    if near {
        cells.push("(near ceiling)".to_owned());
    }
    assert(texts(cells@) =~= fleet_cells(*row));
    cells
}

/// The fleet table's cells, header first.
pub fn rows_human(rows: &Vec<FleetRow>) -> (table: Vec<Vec<String>>)
    requires
        forall|i: int| 0 <= i < rows.len() ==> ceiling_fits(#[trigger] rows@[i]),
    ensures
        grid(table@) == fleet_table(rows@),
{
    let mut table: Vec<Vec<String>> = Vec::new();
    if rows.len() == 0 {
        assert(grid(table@) =~= fleet_table(rows@));
        return table;
    }
    let mut header: Vec<String> = Vec::new();
    header.push("PROJECT".to_owned());
    header.push("STATE".to_owned());
    header.push("MEM (used/ceiling)".to_owned());
    header.push("VCPU".to_owned());
    header.push("DISK (alloc/virtual)".to_owned());
    header.push("SESS".to_owned());
    header.push("UP".to_owned());
    assert(texts(header@) =~= fleet_header());
    table.push(header);
    let mut i: usize = 0;
    while i < rows.len()
        invariant
            i <= rows.len(),
            rows.len() > 0,
            forall|k: int| 0 <= k < rows.len() ==> ceiling_fits(#[trigger] rows@[k]),
            grid(table@) == seq![fleet_header()] + rows@.subrange(0, i as int).map_values(|r: FleetRow| fleet_cells(r)),
        decreases rows.len() - i,
    {
        let cells = fleet_row_cells(&rows[i]);
        let ghost before = table@;
        table.push(cells);
        assert(grid(table@) =~= grid(before).push(fleet_cells(rows@[i as int])));
        assert(rows@.subrange(0, i + 1).map_values(|r: FleetRow| fleet_cells(r)) =~= rows@.subrange(0, i as int).map_values(|r: FleetRow| fleet_cells(r)).push(fleet_cells(rows@[i as int])));
        i = i + 1;
    }
    assert(rows@.subrange(0, rows@.len() as int) =~= rows@);
    table
}

/// One sandbox's record in the fleet report: every key present, `null` where a reading is
/// unavailable.
pub open spec fn row_object(row: FleetRow) -> Seq<char> {
    "{\"generation\":"@ + number_or_null(row.generation) + ",\"manifest\":"@ + json_quoted(row.manifest@)
        + ",\"path_missing\":"@ + string_list(texts(row.path_missing@)) + ",\"resources\":"@ + (match row.resources {
        Some(r) => "{\"mem_mib\":"@ + dec(r.mem_mib as nat) + ",\"vcpu\":"@ + dec(r.vcpu as nat) + "}"@,
        None => "null"@,
    }) + ",\"runtime\":"@ + runtime_object(row.readings) + ",\"stale\":"@ + (if row.stale {
        "true"@
    } else {
        "false"@
    }) + ",\"state\":"@ + json_quoted(state_text(row.state)) + ",\"uptime_seconds\":"@ + number_or_null(row.uptime_seconds)
        + ",\"workspaces\":"@ + string_list(texts(row.workspaces@)) + "}"@
}

fn number_text(n: Option<u64>) -> (text: String)
    ensures
        text@ == number_or_null(n),
{
    match n {
        Some(v) => decimal(v),
        None => "null".to_owned(),
    }
}

/// One sandbox's record.
pub fn row_json(row: &FleetRow) -> (text: String)
    ensures
        text@ == row_object(*row),
{
    let mut text = String::new();
    text.append("{\"generation\":");
    text.append(number_text(row.generation).as_str());
    text.append(",\"manifest\":");
    text.append(json_string(row.manifest.as_str()).as_str());
    text.append(",\"path_missing\":");
    text.append(strings_of(&row.path_missing).as_str());
    text.append(",\"resources\":");
    text.append(resources_text(row.resources).as_str());
    text.append(",\"runtime\":");
    text.append(runtime_json(&row.readings).as_str());
    text.append(",\"stale\":");
    if row.stale {
        text.append("true");
    } else {
        text.append("false");
    }
    text.append(",\"state\":");
    text.append(json_string(row.state.as_str()).as_str());
    text.append(",\"uptime_seconds\":");
    text.append(number_text(row.uptime_seconds).as_str());
    text.append(",\"workspaces\":");
    text.append(strings_of(&row.workspaces).as_str());
    text.append("}");
    text
}

/// The host's own reading beside every fleet, every field `null` where the host will not say;
/// `pressure` is the PSI share already spelled as a JSON number.
pub open spec fn host_object(available: Option<u64>, total: Option<u64>, pressure: Option<Seq<char>>) -> Seq<char> {
    "{\"mem_available_bytes\":"@ + number_or_null(available) + ",\"mem_total_bytes\":"@ + number_or_null(total)
        + ",\"pressure_some_avg60\":"@ + (match pressure {
        Some(p) => p,
        None => "null"@,
    }) + "}"@
}

/// The `host` object.
pub fn host_json(available: Option<u64>, total: Option<u64>, pressure: Option<&str>) -> (text: String)
    ensures
        text@ == host_object(available, total, match pressure {
            Some(p) => Some(p@),
            None => None,
        }),
{
    let mut text = String::new();
    text.append("{\"mem_available_bytes\":");
    text.append(number_text(available).as_str());
    text.append(",\"mem_total_bytes\":");
    text.append(number_text(total).as_str());
    text.append(",\"pressure_some_avg60\":");
    match pressure {
        Some(p) => text.append(p),
        None => text.append("null"),
    }
    text.append("}");
    text
}

} // verus!
