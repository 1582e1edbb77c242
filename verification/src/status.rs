//! `viv status`: the record of one project's operational state, as a human record and as one
//! JSON object.
use vstd::prelude::*;
use crate::lifecycle::{Resources, State};
use crate::render::{bytes, bytes_text, duration, duration_text, json_or_null, push_bytes};
use crate::tables::{labelled, record, record_text};
use crate::text::{dec, decimal, json_quoted, json_string, push_decimal};

verus! {

/// What is measured right now; every field is `None` where the reading is unavailable.
/// `pressure_some_avg60` is the PSI share already spelled as a JSON number.
pub struct RuntimeReadings {
    pub mem_used_bytes: Option<u64>,
    pub disk_allocated_bytes: Option<u64>,
    pub disk_virtual_bytes: Option<u64>,
    pub sessions: Option<u64>,
    pub pressure_some_avg60: Option<String>,
}

/// One project's operational state.
pub struct Report {
    pub manifest: Option<String>,
    pub state: State,
    /// Why a `failed` VM failed, and `None` in every other state.
    pub reason: Option<String>,
    /// Meaningful only while `running`: a newer build exists.
    pub stale: bool,
    pub store_path: Option<String>,
    /// The retained generation `current` points at, `None` for a project never built.
    pub generation: Option<u64>,
    pub uptime_seconds: Option<u64>,
    /// The declared ceiling, never the measured use.
    pub resources: Option<Resources>,
    pub runtime: RuntimeReadings,
    /// The launch schema a running VM's boot record carries when it is not this binary's own.
    pub record_skew: Option<u32>,
}

/// The one cause `status` can tell apart today: a `failed` VM is reported `crashed`, and no other
/// state carries a reason.
pub fn failure_reason(state: State) -> (reason: Option<String>)
    ensures
        state == State::Failed ==> (reason matches Some(r) && r@ == "crashed"@),
        state != State::Failed ==> reason is None,
{
    match state {
        State::Failed => Some("crashed".to_owned()),
        _ => None,
    }
}

/// Whether a running VM is stale: the build now recorded is not the one it was launched from. An
/// unknown half reads as fresh, since the flag carries a remedy the user would act on.
pub fn is_stale(state: State, recorded: Option<&str>, launched: Option<&str>) -> (stale: bool)
    ensures
        stale == (state == State::Running && match (recorded, launched) {
            (Some(r), Some(l)) => r@ != l@,
            _ => false,
        }),
{
    match (recorded, launched) {
        (Some(r), Some(l)) => state == State::Running && !crate::lifecycle::same_text(r, l),
        _ => false,
    }
}

/// Whether every figure the human record multiplies stays in range.
pub open spec fn report_fits(report: Report) -> bool {
    match report.resources {
        Some(r) => r.mem_mib <= 17592186044415,
        None => true,
    }
}

/// The state cell: the glyph beside the word.
pub open spec fn state_cell(state: State) -> Seq<char> {
    "● "@ + crate::lifecycle::state_text(state)
}

/// The memory cell: what is used beside the ceiling, `-` for a half that is unknown.
pub open spec fn memory_cell(report: Report) -> Seq<char> {
    (match report.runtime.mem_used_bytes {
        Some(u) => bytes_text(u as nat),
        None => "-"@,
    }) + " used / "@ + (match report.resources {
        Some(r) => bytes_text(r.mem_mib as nat * 1048576),
        None => "-"@,
    }) + " ceiling"@
}

/// The disk cell, present in every state: allocated beside virtual, or `-`.
pub open spec fn disk_cell(report: Report) -> Seq<char> {
    match (report.runtime.disk_allocated_bytes, report.runtime.disk_virtual_bytes) {
        (Some(a), Some(v)) => bytes_text(a as nat) + " allocated / "@ + bytes_text(v as nat) + " virtual"@,
        _ => "-"@,
    }
}

/// The record-skew cell.
pub open spec fn skew_cell(theirs: u32, ours: u32) -> Seq<char> {
    "launch schema "@ + dec(theirs as nat) + "; this viv speaks "@ + dec(ours as nat)
        + ". `viv stop`, then `viv start`, reboots it under this version"@
}

/// Appends a row when `value` is present.
pub open spec fn row_if(rows: Seq<(Seq<char>, Seq<char>)>, label: Seq<char>, value: Option<Seq<char>>) -> Seq<(Seq<char>, Seq<char>)> {
    match value {
        Some(v) => rows.push((label, v)),
        None => rows,
    }
}

/// The record's rows, in the order the human face lists them.
pub open spec fn status_rows(report: Report, ours: u32) -> Seq<(Seq<char>, Seq<char>)> {
    let r0 = row_if(Seq::empty(), "manifest"@, match report.manifest {
        Some(m) => Some(m@),
        None => None,
    });
    let r1 = r0.push(("state"@, state_cell(report.state)));
    let r2 = row_if(r1, "reason"@, match report.reason {
        Some(m) => Some(m@),
        None => None,
    });
    let r3 = row_if(r2, "record"@, match report.record_skew {
        Some(t) => Some(skew_cell(t, ours)),
        None => None,
    });
    let r4 = row_if(r3, "build"@, match report.store_path {
        Some(p) => Some(p@),
        None => None,
    });
    let r5 = row_if(r4, "uptime"@, match report.uptime_seconds {
        Some(u) => Some(duration_text(u as nat)),
        None => None,
    });
    let r6 = row_if(r5, "memory"@, if report.resources is Some || report.runtime.mem_used_bytes is Some {
        Some(memory_cell(report))
    } else {
        None
    });
    let r7 = row_if(r6, "vcpu"@, match report.resources {
        Some(r) => Some(dec(r.vcpu as nat)),
        None => None,
    });
    let r8 = row_if(r7, "sessions"@, match report.runtime.sessions {
        Some(s) => Some(dec(s as nat)),
        None => None,
    });
    r8.push(("disk"@, disk_cell(report)))
}

/// The remedy a stale VM's record ends with.
pub open spec fn stale_note() -> Seq<char> {
    "\n! this VM is stale: a newer build exists. `viv start --rebuild` replaces it\n"@
}

/// The human status record.
pub open spec fn status_text(report: Report, ours: u32) -> Seq<char> {
    let rows = status_rows(report, ours);
    record_text(rows, rows.len() as int) + if report.stale {
        stale_note()
    } else {
        Seq::empty()
    }
}

fn owned_pair(label: &str, value: String) -> (p: (String, String))
    ensures
        p.0@ == label@,
        p.1@ == value@,
{
    (label.to_owned(), value)
}

fn push_row(rows: &mut Vec<(String, String)>, label: &str, value: String)
    ensures
        labelled(final(rows)@) == labelled(old(rows)@).push((label@, value@)),
{
    let ghost before = rows@;
    rows.push(owned_pair(label, value));
    assert(labelled(rows@) =~= labelled(before).push((label@, value@)));
}

fn copied(text: &String) -> (c: String)
    ensures
        c@ == text@,
{
    text.clone()
}

fn memory_value(report: &Report) -> (text: String)
    requires
        report_fits(*report),
    ensures
        text@ == memory_cell(*report),
{
    let mut text = String::new();
    match report.runtime.mem_used_bytes {
        Some(u) => push_bytes(&mut text, u),
        None => text.append("-"),
    }
    text.append(" used / ");
    match report.resources {
        Some(r) => push_bytes(&mut text, r.mem_mib * 1048576),
        None => text.append("-"),
    }
    text.append(" ceiling");
    text
}

fn disk_value(report: &Report) -> (text: String)
    ensures
        text@ == disk_cell(*report),
{
    match (report.runtime.disk_allocated_bytes, report.runtime.disk_virtual_bytes) {
        (Some(a), Some(v)) => {
            let mut text = String::new();
            push_bytes(&mut text, a);
            text.append(" allocated / ");
            push_bytes(&mut text, v);
            text.append(" virtual");
            text
        },
        _ => "-".to_owned(),
    }
}

fn skew_value(theirs: u32, ours: u32) -> (text: String)
    ensures
        text@ == skew_cell(theirs, ours),
{
    let mut text = String::new();
    text.append("launch schema ");
    push_decimal(&mut text, theirs as u64);
    text.append("; this viv speaks ");
    push_decimal(&mut text, ours as u64);
    text.append(". `viv stop`, then `viv start`, reboots it under this version");
    text
}

fn state_value(state: State) -> (text: String)
    ensures
        text@ == state_cell(state),
{
    let mut text = String::new();
    text.append("● ");
    text.append(state.as_str());
    text
}

/// The human status rows.
fn rows_of(report: &Report, ours: u32) -> (rows: Vec<(String, String)>)
    requires
        report_fits(*report),
    ensures
        labelled(rows@) == status_rows(*report, ours),
{
    let mut rows: Vec<(String, String)> = Vec::new();
    assert(labelled(rows@) =~= Seq::<(Seq<char>, Seq<char>)>::empty());
    match &report.manifest {
        Some(m) => push_row(&mut rows, "manifest", copied(m)),
        None => {},
    }
    push_row(&mut rows, "state", state_value(report.state));
    match &report.reason {
        Some(m) => push_row(&mut rows, "reason", copied(m)),
        None => {},
    }
    match report.record_skew {
        Some(t) => push_row(&mut rows, "record", skew_value(t, ours)),
        None => {},
    }
    match &report.store_path {
        Some(p) => push_row(&mut rows, "build", copied(p)),
        None => {},
    }
    match report.uptime_seconds {
        Some(u) => push_row(&mut rows, "uptime", duration(u)),
        None => {},
    }
    if report.resources.is_some() || report.runtime.mem_used_bytes.is_some() {
        push_row(&mut rows, "memory", memory_value(report));
    }
    match report.resources {
        Some(r) => push_row(&mut rows, "vcpu", decimal(r.vcpu)),
        None => {},
    }
    match report.runtime.sessions {
        Some(s) => push_row(&mut rows, "sessions", decimal(s)),
        None => {},
    }
    push_row(&mut rows, "disk", disk_value(report));
    rows
}

/// `viv status`: the labelled record, and the remedy beside a stale VM. `ours` is the launch
/// schema this binary speaks.
pub fn status_human(report: &Report, ours: u32) -> (text: String)
    requires
        report_fits(*report),
    ensures
        text@ == status_text(*report, ours),
{
    let rows = rows_of(report, ours);
    let mut text = record(&rows);
    if report.stale {
        text.append("\n! this VM is stale: a newer build exists. `viv start --rebuild` replaces it\n");
    }
    text
}

/// A JSON number, or `null`.
pub open spec fn number_or_null(n: Option<u64>) -> Seq<char> {
    match n {
        Some(v) => dec(v as nat),
        None => "null"@,
    }
}

/// The `runtime` object, every key present.
pub open spec fn runtime_object(r: RuntimeReadings) -> Seq<char> {
    "{\"disk_allocated_bytes\":"@ + number_or_null(r.disk_allocated_bytes) + ",\"disk_virtual_bytes\":"@
        + number_or_null(r.disk_virtual_bytes) + ",\"mem_used_bytes\":"@ + number_or_null(r.mem_used_bytes)
        + ",\"pressure_some_avg60\":"@ + (match r.pressure_some_avg60 {
            Some(p) => p@,
            None => "null"@,
        }) + ",\"sessions\":"@ + number_or_null(r.sessions) + "}"@
}

/// The status record's leading keys.
pub open spec fn status_head(report: Report, ours: u32) -> Seq<char> {
    "{\"generation\":"@ + number_or_null(report.generation) + ",\"manifest\":"@ + json_or_null(
        match report.manifest {
            Some(m) => Some(m@),
            None => None,
        },
    ) + ",\"reason\":"@ + json_or_null(
        match report.reason {
            Some(m) => Some(m@),
            None => None,
        },
    ) + ",\"record_schema_skew\":"@ + (match report.record_skew {
        Some(t) => "{\"binary\":"@ + dec(ours as nat) + ",\"record\":"@ + dec(t as nat) + "}"@,
        None => "null"@,
    })
}

/// The status record's trailing keys.
pub open spec fn status_tail(report: Report) -> Seq<char> {
    ",\"resources\":"@ + (match report.resources {
        Some(r) => "{\"mem_mib\":"@ + dec(r.mem_mib as nat) + ",\"vcpu\":"@ + dec(r.vcpu as nat) + "}"@,
        None => "null"@,
    }) + ",\"runtime\":"@ + runtime_object(report.runtime) + ",\"stale\":"@ + (if report.stale {
        "true"@
    } else {
        "false"@
    }) + ",\"state\":"@ + json_quoted(crate::lifecycle::state_text(report.state)) + ",\"store_path\":"@
        + json_or_null(
        match report.store_path {
            Some(m) => Some(m@),
            None => None,
        },
    ) + ",\"uptime_seconds\":"@ + number_or_null(report.uptime_seconds) + "}"@
}

/// The status record: every key present whatever the state, `null` where the state cannot fill
/// a field honestly.
pub open spec fn status_record(report: Report, ours: u32) -> Seq<char> {
    status_head(report, ours) + status_tail(report)
}

fn number_or_null_text(n: Option<u64>) -> (text: String)
    ensures
        text@ == number_or_null(n),
{
    match n {
        Some(v) => decimal(v),
        None => "null".to_owned(),
    }
}

fn text_or_null(text: &Option<String>) -> (quoted: String)
    ensures
        quoted@ == json_or_null(match *text {
            Some(m) => Some(m@),
            None => None,
        }),
{
    match text {
        Some(t) => json_string(t.as_str()),
        None => "null".to_owned(),
    }
}

/// The measured `runtime` object both status faces share; an unavailable reading is `null`.
pub fn runtime_json(r: &RuntimeReadings) -> (text: String)
    ensures
        text@ == runtime_object(*r),
{
    let mut text = String::new();
    text.append("{\"disk_allocated_bytes\":");
    text.append(number_or_null_text(r.disk_allocated_bytes).as_str());
    text.append(",\"disk_virtual_bytes\":");
    text.append(number_or_null_text(r.disk_virtual_bytes).as_str());
    text.append(",\"mem_used_bytes\":");
    text.append(number_or_null_text(r.mem_used_bytes).as_str());
    text.append(",\"pressure_some_avg60\":");
    match &r.pressure_some_avg60 {
        Some(p) => text.append(p.as_str()),
        None => text.append("null"),
    }
    text.append(",\"sessions\":");
    text.append(number_or_null_text(r.sessions).as_str());
    text.append("}");
    text
}

fn skew_text(skew: Option<u32>, ours: u32) -> (text: String)
    ensures
        text@ == (match skew {
            Some(t) => "{\"binary\":"@ + dec(ours as nat) + ",\"record\":"@ + dec(t as nat) + "}"@,
            None => "null"@,
        }),
{
    match skew {
        Some(t) => {
            let mut text = String::new();
            text.append("{\"binary\":");
            push_decimal(&mut text, ours as u64);
            text.append(",\"record\":");
            push_decimal(&mut text, t as u64);
            text.append("}");
            text
        },
        None => "null".to_owned(),
    }
}

pub(crate) fn resources_text(resources: Option<Resources>) -> (text: String)
    ensures
        text@ == (match resources {
            Some(r) => "{\"mem_mib\":"@ + dec(r.mem_mib as nat) + ",\"vcpu\":"@ + dec(r.vcpu as nat) + "}"@,
            None => "null"@,
        }),
{
    match resources {
        Some(r) => {
            let mut text = String::new();
            text.append("{\"mem_mib\":");
            push_decimal(&mut text, r.mem_mib);
            text.append(",\"vcpu\":");
            push_decimal(&mut text, r.vcpu);
            text.append("}");
            text
        },
        None => "null".to_owned(),
    }
}

fn head_text(report: &Report, ours: u32) -> (text: String)
    ensures
        text@ == status_head(*report, ours),
{
    let mut text = String::new();
    text.append("{\"generation\":");
    text.append(number_or_null_text(report.generation).as_str());
    text.append(",\"manifest\":");
    text.append(text_or_null(&report.manifest).as_str());
    text.append(",\"reason\":");
    text.append(text_or_null(&report.reason).as_str());
    text.append(",\"record_schema_skew\":");
    text.append(skew_text(report.record_skew, ours).as_str());
    text
}

fn tail_text(report: &Report) -> (text: String)
    ensures
        text@ == status_tail(*report),
{
    let mut text = String::new();
    text.append(",\"resources\":");
    text.append(resources_text(report.resources).as_str());
    text.append(",\"runtime\":");
    text.append(runtime_json(&report.runtime).as_str());
    text.append(",\"stale\":");
    if report.stale {
        text.append("true");
    } else {
        text.append("false");
    }
    text.append(",\"state\":");
    text.append(json_string(report.state.as_str()).as_str());
    text.append(",\"store_path\":");
    text.append(text_or_null(&report.store_path).as_str());
    text.append(",\"uptime_seconds\":");
    text.append(number_or_null_text(report.uptime_seconds).as_str());
    text.append("}");
    text
}

/// `viv status --json`: the status record and a newline.
pub fn status_json(report: &Report, ours: u32) -> (text: String)
    ensures
        text@ == status_record(*report, ours) + "\n"@,
{
    let mut text = head_text(report, ours);
    let tail = tail_text(report);
    text.append(tail.as_str());
    text.append("\n");
    text
}

} // verus!
