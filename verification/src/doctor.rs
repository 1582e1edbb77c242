//! `viv doctor`: the exit a report maps to, the report's two renderings, and the skip note.
use vstd::prelude::*;
use vstd::utf8::encode_utf8;
use crate::exit::{code_of, ExitKind};
use crate::failure::{diagnosed, Failure, Locus, Namespace, Success};
use crate::grammar::Output;
use crate::render::json_or_null;
use crate::text::{dec, joined, json_quoted, json_string, pad_right, push_decimal, push_padded, texts};
use crate::views::{doctor_list_human, join_texts, probe_cells};
use crate::tables::columns_text;

verus! {

/// A probe's outcome.
#[derive(Clone, Copy, Debug, PartialEq, Eq, Structural)]
pub enum Status {
    Pass,
    Warn,
    Fail,
    Skipped,
}

pub open spec fn status_text(s: Status) -> Seq<char> {
    match s {
        Status::Pass => "pass"@,
        Status::Warn => "warn"@,
        Status::Fail => "fail"@,
        Status::Skipped => "skipped"@,
    }
}

impl Status {
    pub fn as_str(self) -> (s: &'static str)
        ensures
            s@ == status_text(self),
    {
        match self {
            Status::Pass => "pass",
            Status::Warn => "warn",
            Status::Fail => "fail",
            Status::Skipped => "skipped",
        }
    }
}

/// Whether a failing probe stops a launch.
#[derive(Clone, Copy, Debug, PartialEq, Eq, Structural)]
pub enum Severity {
    Hard,
    Soft,
}

pub open spec fn severity_text(s: Severity) -> Seq<char> {
    match s {
        Severity::Hard => "hard"@,
        Severity::Soft => "soft"@,
    }
}

impl Severity {
    pub fn as_str(self) -> (s: &'static str)
        ensures
            s@ == severity_text(self),
    {
        match self {
            Severity::Hard => "hard",
            Severity::Soft => "soft",
        }
    }
}

/// One catalog entry.
pub struct Probe {
    pub id: String,
    pub category: String,
    pub scope: String,
    pub severity: Severity,
    pub title: String,
    /// The exit a hard failure of this probe maps to.
    pub code: Option<ExitKind>,
}

/// One probe's outcome in a run.
pub struct Finding {
    pub probe: Probe,
    pub status: Status,
    pub message: String,
    pub hint: Option<String>,
    pub reason: Option<String>,
}

/// The first hard failure in catalog order, from `i` on.
pub open spec fn first_hard_failure(f: Seq<Finding>, i: int) -> Option<Option<ExitKind>>
    decreases f.len() - i,
{
    if i < 0 || i >= f.len() {
        None
    } else if f[i].status == Status::Fail && f[i].probe.severity == Severity::Hard {
        Some(f[i].probe.code)
    } else {
        first_hard_failure(f, i + 1)
    }
}

/// The outcome mapping: the first hard failure decides the code, `--strict` promotes a warn to
/// `1`, and skips never affect the exit.
pub open spec fn doctor_exit(f: Seq<Finding>, strict: bool) -> ExitKind {
    match first_hard_failure(f, 0) {
        Some(code) => match code {
            Some(c) => c,
            None => ExitKind::Software,
        },
        None => if strict && exists|i: int| 0 <= i < f.len() && (#[trigger] f[i]).status == Status::Warn {
            ExitKind::DoctorStrict
        } else {
            ExitKind::Success
        },
    }
}

proof fn lemma_skip_keeps_first_hard(f: Seq<Finding>, i: int, x: Finding, j: int)
    requires
        x.status == Status::Skipped,
        0 <= i <= f.len(),
        0 <= j <= f.len(),
    ensures
        first_hard_failure(f.insert(i, x), if j < i { j } else { j + 1 }) == first_hard_failure(f, j),
    decreases f.len() - j,
{
    let g = f.insert(i, x);
    if j < f.len() {
        lemma_skip_keeps_first_hard(f, i, x, j + 1);
        if j < i {
            assert(g[j] == f[j]);
            if j + 1 == i {
                assert(g[i] == x);
                assert(first_hard_failure(g, i) == first_hard_failure(g, i + 1));
            }
        } else {
            assert(g[j + 1] == f[j]);
        }
    }
}

/// A skipped probe never changes what a run exits with, wherever it stands in the report.
pub proof fn law_skips_never_affect_the_exit(f: Seq<Finding>, i: int, x: Finding, strict: bool)
    requires
        x.status == Status::Skipped,
        0 <= i <= f.len(),
    ensures
        doctor_exit(f.insert(i, x), strict) == doctor_exit(f, strict),
{
    let g = f.insert(i, x);
    lemma_skip_keeps_first_hard(f, i, x, 0);
    if i == 0 {
        assert(g[0] == x);
        assert(first_hard_failure(g, 0) == first_hard_failure(g, 1));
    }
    assert((exists|k: int| 0 <= k < g.len() && (#[trigger] g[k]).status == Status::Warn) == (exists|k: int|
        0 <= k < f.len() && (#[trigger] f[k]).status == Status::Warn)) by {
        if exists|k: int| 0 <= k < g.len() && (#[trigger] g[k]).status == Status::Warn {
            let k = choose|k: int| 0 <= k < g.len() && (#[trigger] g[k]).status == Status::Warn;
            if k < i {
                assert(f[k] == g[k]);
            } else {
                assert(k != i);
                assert(f[k - 1] == g[k]);
            }
        }
        if exists|k: int| 0 <= k < f.len() && (#[trigger] f[k]).status == Status::Warn {
            let k = choose|k: int| 0 <= k < f.len() && (#[trigger] f[k]).status == Status::Warn;
            if k < i {
                assert(g[k] == f[k]);
            } else {
                assert(g[k + 1] == f[k]);
            }
        }
    }
}

pub fn exit_code(findings: &Vec<Finding>, strict: bool) -> (kind: ExitKind)
    ensures
        kind == doctor_exit(findings@, strict),
{
    let mut i: usize = 0;
    while i < findings.len()
        invariant
            i <= findings.len(),
            first_hard_failure(findings@, 0) == first_hard_failure(findings@, i as int),
        decreases findings.len() - i,
    {
        let f = &findings[i];
        if f.status == Status::Fail && f.probe.severity == Severity::Hard {
            return match f.probe.code {
                Some(c) => c,
                None => ExitKind::Software,
            };
        }
        i = i + 1;
    }
    if strict {
        let mut j: usize = 0;
        while j < findings.len()
            invariant
                j <= findings.len(),
                strict,
                first_hard_failure(findings@, 0) is None,
                forall|k: int| 0 <= k < j ==> (#[trigger] findings@[k]).status != Status::Warn,
            decreases findings.len() - j,
        {
            if findings[j].status == Status::Warn {
                assert(findings@[j as int].status == Status::Warn);
                return ExitKind::DoctorStrict;
            }
            j = j + 1;
        }
    }
    ExitKind::Success
}

/// What a report row says: the message, or a skip reason's fixed wording.
pub open spec fn message_text(f: Finding) -> Seq<char> {
    if f.status == Status::Skipped && f.message@.len() == 0 {
        match f.reason {
            Some(r) => if r@ == "no-manifest-bound"@ {
                "no manifest declares this workspace"@
            } else if r@ == "offline-mode"@ {
                "offline - run with `--online`"@
            } else {
                r@
            },
            None => Seq::empty(),
        }
    } else {
        f.message@
    }
}

pub fn doctor_message(finding: &Finding) -> (m: String)
    ensures
        m@ == message_text(*finding),
{
    if finding.status == Status::Skipped && finding.message.as_str().unicode_len() == 0 {
        return match &finding.reason {
            Some(r) => if *r == "no-manifest-bound".to_owned() {
                "no manifest declares this workspace".to_owned()
            } else if *r == "offline-mode".to_owned() {
                "offline - run with `--online`".to_owned()
            } else {
                r.clone()
            },
            None => String::new(),
        };
    }
    finding.message.clone()
}

/// The widest probe id, in bytes, among the first `n` findings.
pub open spec fn id_width(f: Seq<Finding>, n: int) -> nat
    decreases n,
{
    if n <= 0 || n > f.len() {
        0
    } else {
        let w = encode_utf8(f[n - 1].probe.id@).len();
        let rest = id_width(f, n - 1);
        if w > rest {
            w
        } else {
            rest
        }
    }
}

/// The categories of the first `n` findings, each once, in first-appearance order.
pub open spec fn categories(f: Seq<Finding>, n: int) -> Seq<Seq<char>>
    decreases n,
{
    if n <= 0 || n > f.len() {
        Seq::empty()
    } else {
        let head = categories(f, n - 1);
        if head.contains(f[n - 1].probe.category@) {
            head
        } else {
            head.push(f[n - 1].probe.category@)
        }
    }
}

/// One report row: the bracketed marker, the id padded to the widest, the message, and the hint
/// on a line of its own.
pub open spec fn row_text(f: Finding, width: nat) -> Seq<char> {
    "  "@ + pad_right("["@ + status_text(f.status) + "]"@, 9) + "  "@ + pad_right(f.probe.id@, width)
        + "  "@ + message_text(f) + "\n"@ + match f.hint {
        Some(h) => pad_right(Seq::empty(), 17) + "hint:"@ + " "@ + h@ + "\n"@,
        None => Seq::empty(),
    }
}

/// The rows of the first `n` findings in `category`.
pub open spec fn category_rows(f: Seq<Finding>, category: Seq<char>, width: nat, n: int) -> Seq<char>
    decreases n,
{
    if n <= 0 || n > f.len() {
        Seq::empty()
    } else {
        category_rows(f, category, width, n - 1) + if f[n - 1].probe.category@ == category {
            row_text(f[n - 1], width)
        } else {
            Seq::empty()
        }
    }
}

/// The first `k` category blocks, blank-line separated.
pub open spec fn blocks(f: Seq<Finding>, cats: Seq<Seq<char>>, width: nat, k: int) -> Seq<char>
    decreases k,
{
    if k <= 0 || k > cats.len() {
        Seq::empty()
    } else {
        blocks(f, cats, width, k - 1) + (if k > 1 {
            "\n"@
        } else {
            Seq::empty()
        }) + cats[k - 1] + "\n"@ + category_rows(f, cats[k - 1], width, f.len() as int)
    }
}

/// How many findings among the first `n` have status `s`.
pub open spec fn count_status(f: Seq<Finding>, s: Status, n: int) -> nat
    decreases n,
{
    if n <= 0 || n > f.len() {
        0
    } else {
        count_status(f, s, n - 1) + if f[n - 1].status == s {
            1nat
        } else {
            0nat
        }
    }
}

/// The report: each category once with its rows, then the summary naming the exit.
pub open spec fn doctor_report(f: Seq<Finding>, code: ExitKind) -> Seq<char> {
    let cats = categories(f, f.len() as int);
    blocks(f, cats, id_width(f, f.len() as int), cats.len() as int) + "\n"@ + dec(count_status(f, Status::Pass, f.len() as int))
        + " pass - "@ + dec(count_status(f, Status::Warn, f.len() as int)) + " warn - "@ + dec(count_status(f, Status::Fail, f.len() as int))
        + " fail - "@ + dec(count_status(f, Status::Skipped, f.len() as int)) + " skipped -> exit "@ + dec(code_of(code) as nat)
        + "\n"@
}

fn contains_category(cats: &Vec<String>, c: &String) -> (r: bool)
    ensures
        r == texts(cats@).contains(c@),
{
    let mut i: usize = 0;
    while i < cats.len()
        invariant
            i <= cats.len(),
            forall|j: int| 0 <= j < i ==> texts(cats@)[j] != c@,
        decreases cats.len() - i,
    {
        if cats[i] == *c {
            assert(texts(cats@)[i as int] == c@);
            return true;
        }
        i = i + 1;
    }
    false
}

fn push_row(out: &mut String, f: &Finding, width: usize)
    ensures
        final(out)@ == old(out)@ + row_text(*f, width as nat),
{
    out.append("  ");
    let mut marker = String::new();
    marker.append("[");
    marker.append(f.status.as_str());
    marker.append("]");
    push_padded(out, marker.as_str(), 9);
    out.append("  ");
    push_padded(out, f.probe.id.as_str(), width);
    out.append("  ");
    let message = doctor_message(f);
    out.append(message.as_str());
    out.append("\n");
    match &f.hint {
        Some(h) => {
            push_padded(out, "", 17);
            proof {
                reveal_strlit("");
            }
            out.append("hint:");
            out.append(" ");
            out.append(h.as_str());
            out.append("\n");
        },
        None => {},
    }
}

/// `viv doctor`'s human report.
pub fn doctor_human(findings: &Vec<Finding>, code: ExitKind) -> (text: String)
    ensures
        text@ == doctor_report(findings@, code),
{
    let ghost f = findings@;
    let n = findings.len();
    let mut width: usize = 0;
    let mut i: usize = 0;
    while i < n
        invariant
            i <= n,
            n == f.len(),
            f == findings@,
            width == id_width(f, i as int),
        decreases n - i,
    {
        let w = findings[i].probe.id.as_str().as_bytes().len();
        if w > width {
            width = w;
        }
        i = i + 1;
    }
    let mut cats: Vec<String> = Vec::new();
    let mut k: usize = 0;
    assert(texts(cats@) =~= categories(f, 0));
    while k < n
        invariant
            k <= n,
            n == f.len(),
            f == findings@,
            texts(cats@) == categories(f, k as int),
            cats.len() <= k,
        decreases n - k,
    {
        let c = &findings[k].probe.category;
        if !contains_category(&cats, c) {
            let ghost before = cats@;
            cats.push(c.clone());
            assert(texts(cats@) =~= texts(before).push(c@));
        }
        k = k + 1;
    }
    let ghost cv = texts(cats@);
    let mut text = String::new();
    let mut b: usize = 0;
    while b < cats.len()
        invariant
            b <= cats.len(),
            n == f.len(),
            f == findings@,
            cv == texts(cats@),
            width == id_width(f, n as int),
            text@ == blocks(f, cv, width as nat, b as int),
        decreases cats.len() - b,
    {
        if b > 0 {
            text.append("\n");
        }
        let category = &cats[b];
        assert(cv[b as int] == category@);
        text.append(category.as_str());
        text.append("\n");
        let ghost head = text@;
        let mut j: usize = 0;
        while j < n
            invariant
                j <= n,
                n == f.len(),
                f == findings@,
                text@ == head + category_rows(f, category@, width as nat, j as int),
            decreases n - j,
        {
            if findings[j].probe.category == *category {
                push_row(&mut text, &findings[j], width);
            }
            j = j + 1;
        }
        b = b + 1;
    }
    let (mut passed, mut warned, mut failed, mut skipped) = (0usize, 0usize, 0usize, 0usize);
    let mut m: usize = 0;
    while m < n
        invariant
            m <= n,
            n == f.len(),
            f == findings@,
            passed == count_status(f, Status::Pass, m as int),
            warned == count_status(f, Status::Warn, m as int),
            failed == count_status(f, Status::Fail, m as int),
            skipped == count_status(f, Status::Skipped, m as int),
            passed + warned + failed + skipped == m,
        decreases n - m,
    {
        match findings[m].status {
            Status::Pass => passed = passed + 1,
            Status::Warn => warned = warned + 1,
            Status::Fail => failed = failed + 1,
            Status::Skipped => skipped = skipped + 1,
        }
        m = m + 1;
    }
    text.append("\n");
    push_decimal(&mut text, passed as u64);
    text.append(" pass - ");
    push_decimal(&mut text, warned as u64);
    text.append(" warn - ");
    push_decimal(&mut text, failed as u64);
    text.append(" fail - ");
    push_decimal(&mut text, skipped as u64);
    text.append(" skipped -> exit ");
    push_decimal(&mut text, code.code() as u64);
    text.append("\n");
    text
}

/// The stderr note for project probes skipped for want of a unique owner.
pub open spec fn skip_note_text(ambiguous: bool, has_project: bool) -> Seq<char> {
    if ambiguous {
        "project checks skipped: more than one manifest declares this workspace\n"@
    } else if !has_project {
        "project checks skipped: no manifest declares this workspace\n"@
    } else {
        Seq::empty()
    }
}

/// What `viv doctor` does first.
pub enum DoctorStart {
    /// Gather the inputs and run the catalog, then hand the findings to [`command`].
    Probe,
    /// Done without probing anything: this result and code.
    Finish(Success, ExitKind),
}

/// The `--list` listing of the catalog in the chosen output.
pub open spec fn listing_text(catalog: Seq<Probe>, output: Output) -> Seq<char> {
    if output == Output::Json {
        "{\"checks\":["@ + joined(catalog.map_values(|p: Probe| probe_object(p)), ","@) + "]}\n"@
    } else {
        columns_text(catalog.map_values(|p: Probe| probe_cells(p)), catalog.len() as int)
    }
}

/// `viv doctor`'s first decision: `--list` enumerates the catalog and succeeds with nothing
/// probed and no note; otherwise the host is probed.
pub fn doctor_begin(list: bool, catalog: &Vec<Probe>, output: Output) -> (r: DoctorStart)
    ensures
        list ==> (r matches DoctorStart::Finish(s, code) && code == ExitKind::Success
            && s.stdout@ == listing_text(catalog@, output) && s.notes@ == Seq::<char>::empty()),
        !list ==> r is Probe,
{
    if !list {
        return DoctorStart::Probe;
    }
    let stdout = if output.is_json() {
        doctor_list_json(catalog)
    } else {
        doctor_list_human(catalog)
    };
    DoctorStart::Finish(Success::plain(stdout), ExitKind::Success)
}

/// A run's result: the report on stdout, the skip note on stderr, and the code it maps to.
pub fn command(findings: &Vec<Finding>, ambiguous: bool, has_project: bool, strict: bool, output: Output) -> (r: (Success, ExitKind))
    ensures
        r.1 == doctor_exit(findings@, strict),
        r.0.notes@ == skip_note_text(ambiguous, has_project),
        output == Output::Human ==> r.0.stdout@ == doctor_report(findings@, r.1),
        output == Output::Json ==> r.0.stdout@ == doctor_json_text(findings@) + "\n"@,
{
    let notes = if ambiguous {
        "project checks skipped: more than one manifest declares this workspace\n".to_owned()
    } else if !has_project {
        "project checks skipped: no manifest declares this workspace\n".to_owned()
    } else {
        String::new()
    };
    let code = exit_code(findings, strict);
    let stdout = if output.is_json() {
        doctor_json(findings)
    } else {
        doctor_human(findings, code)
    };
    (Success { stdout, notes }, code)
}

/// A field present only when it holds a value.
pub open spec fn optional_field(key: Seq<char>, value: Option<Seq<char>>) -> Seq<char> {
    match value {
        Some(v) => key + json_quoted(v),
        None => Seq::empty(),
    }
}

/// One check of the JSON envelope, keys in sorted order; message, hint and reason appear only
/// when present.
pub open spec fn check_text(f: Finding) -> Seq<char> {
    check_head(f) + check_tail(f)
}

pub open spec fn check_head(f: Finding) -> Seq<char> {
    "{\"category\":"@ + json_quoted(f.probe.category@) + optional_field(",\"hint\":"@, match f.hint {
        Some(h) => Some(h@),
        None => None,
    }) + ",\"id\":"@ + json_quoted(f.probe.id@)
}

pub open spec fn check_tail(f: Finding) -> Seq<char> {
    check_notes(f) + check_kind(f)
}

pub open spec fn check_notes(f: Finding) -> Seq<char> {
    optional_field(",\"message\":"@, if f.message@.len() > 0 {
        Some(f.message@)
    } else {
        None
    }) + optional_field(",\"reason\":"@, match f.reason {
        Some(r) => Some(r@),
        None => None,
    })
}

pub open spec fn check_kind(f: Finding) -> Seq<char> {
    ",\"scope\":"@ + json_quoted(f.probe.scope@) + ",\"severity\":"@ + json_quoted(severity_text(f.probe.severity))
        + ",\"status\":"@ + json_quoted(status_text(f.status)) + "}"@
}

/// The first `n` checks, comma separated.
pub open spec fn checks_text(f: Seq<Finding>, n: int) -> Seq<char>
    decreases n,
{
    if n <= 0 || n > f.len() {
        Seq::empty()
    } else {
        checks_text(f, n - 1) + (if n > 1 {
            ","@
        } else {
            Seq::empty()
        }) + check_text(f[n - 1])
    }
}

/// How many of the first `n` findings are hard failures.
pub open spec fn count_hard(f: Seq<Finding>, n: int) -> nat
    decreases n,
{
    if n <= 0 || n > f.len() {
        0
    } else {
        count_hard(f, n - 1) + if f[n - 1].status == Status::Fail && f[n - 1].probe.severity == Severity::Hard {
            1nat
        } else {
            0nat
        }
    }
}

/// The JSON envelope, keys in sorted order: the checks, the schema version, the overall status,
/// and the summary with its hard-failure count.
pub open spec fn doctor_json_text(f: Seq<Finding>) -> Seq<char> {
    let n = f.len() as int;
    let overall = if count_hard(f, n) > 0 {
        "fail"@
    } else if count_status(f, Status::Warn, n) > 0 {
        "warn"@
    } else {
        "pass"@
    };
    "{\"checks\":["@ + checks_text(f, n) + "],\"schema_version\":\"1\",\"status\":"@ + json_quoted(overall)
        + ",\"summary\":{\"failed\":"@ + dec(count_status(f, Status::Fail, n)) + ",\"hard_failures\":"@
        + dec(count_hard(f, n)) + ",\"passed\":"@ + dec(count_status(f, Status::Pass, n)) + ",\"skipped\":"@
        + dec(count_status(f, Status::Skipped, n)) + ",\"total\":"@ + dec(f.len()) + ",\"warned\":"@
        + dec(count_status(f, Status::Warn, n)) + "}}"@
}

fn push_json(out: &mut String, text: &str)
    ensures
        final(out)@ == old(out)@ + json_quoted(text@),
{
    let q = json_string(text);
    out.append(q.as_str());
}

fn push_optional(out: &mut String, key: &str, value: Option<&str>)
    ensures
        final(out)@ == old(out)@ + optional_field(key@, match value {
            Some(v) => Some(v@),
            None => None,
        }),
{
    match value {
        Some(v) => {
            out.append(key);
            push_json(out, v);
        },
        None => {},
    }
}

fn push_check_head(out: &mut String, f: &Finding)
    ensures
        final(out)@ == old(out)@ + check_head(*f),
{
    out.append("{\"category\":");
    push_json(out, f.probe.category.as_str());
    let hint = match &f.hint {
        Some(h) => Some(h.as_str()),
        None => None,
    };
    push_optional(out, ",\"hint\":", hint);
    out.append(",\"id\":");
    push_json(out, f.probe.id.as_str());
}

fn push_check_notes(out: &mut String, f: &Finding)
    ensures
        final(out)@ == old(out)@ + check_notes(*f),
{
    let message = if f.message.as_str().unicode_len() > 0 {
        Some(f.message.as_str())
    } else {
        None
    };
    push_optional(out, ",\"message\":", message);
    let reason = match &f.reason {
        Some(r) => Some(r.as_str()),
        None => None,
    };
    push_optional(out, ",\"reason\":", reason);
}

fn push_check_kind(out: &mut String, f: &Finding)
    ensures
        final(out)@ == old(out)@ + check_kind(*f),
{
    out.append(",\"scope\":");
    push_json(out, f.probe.scope.as_str());
    out.append(",\"severity\":");
    push_json(out, f.probe.severity.as_str());
    out.append(",\"status\":");
    push_json(out, f.status.as_str());
    out.append("}");
}

fn push_check_tail(out: &mut String, f: &Finding)
    ensures
        final(out)@ == old(out)@ + check_tail(*f),
{
    push_check_notes(out, f);
    push_check_kind(out, f);
}

fn push_check(out: &mut String, f: &Finding)
    ensures
        final(out)@ == old(out)@ + check_text(*f),
{
    push_check_head(out, f);
    push_check_tail(out, f);
}

/// `viv doctor --json`: the enveloped record and a newline.
pub fn doctor_json(findings: &Vec<Finding>) -> (text: String)
    ensures
        text@ == doctor_json_text(findings@) + "\n"@,
{
    let ghost f = findings@;
    let n = findings.len();
    let mut text = String::new();
    text.append("{\"checks\":[");
    let ghost head = text@;
    let (mut passed, mut warned, mut failed, mut skipped, mut hard) = (0usize, 0usize, 0usize, 0usize, 0usize);
    let mut i: usize = 0;
    while i < n
        invariant
            i <= n,
            n == f.len(),
            f == findings@,
            text@ == head + checks_text(f, i as int),
            passed == count_status(f, Status::Pass, i as int),
            warned == count_status(f, Status::Warn, i as int),
            failed == count_status(f, Status::Fail, i as int),
            skipped == count_status(f, Status::Skipped, i as int),
            hard == count_hard(f, i as int),
            passed + warned + failed + skipped == i,
            hard <= failed,
        decreases n - i,
    {
        if i > 0 {
            text.append(",");
        }
        let finding = &findings[i];
        push_check(&mut text, finding);
        match finding.status {
            Status::Pass => passed = passed + 1,
            Status::Warn => warned = warned + 1,
            Status::Fail => failed = failed + 1,
            Status::Skipped => skipped = skipped + 1,
        }
        if finding.status == Status::Fail && finding.probe.severity == Severity::Hard {
            hard = hard + 1;
        }
        i = i + 1;
    }
    text.append("],\"schema_version\":\"1\",\"status\":");
    let overall = if hard > 0 {
        "fail"
    } else if warned > 0 {
        "warn"
    } else {
        "pass"
    };
    push_json(&mut text, overall);
    text.append(",\"summary\":{\"failed\":");
    push_decimal(&mut text, failed as u64);
    text.append(",\"hard_failures\":");
    push_decimal(&mut text, hard as u64);
    text.append(",\"passed\":");
    push_decimal(&mut text, passed as u64);
    text.append(",\"skipped\":");
    push_decimal(&mut text, skipped as u64);
    text.append(",\"total\":");
    push_decimal(&mut text, n as u64);
    text.append(",\"warned\":");
    push_decimal(&mut text, warned as u64);
    text.append("}}");
    text.append("\n");
    text
}

/// One catalog entry as `viv doctor --list --json` lists it, keys in order.
pub open spec fn probe_object(p: Probe) -> Seq<char> {
    "{\"category\":"@ + json_quoted(p.category@) + ",\"id\":"@ + json_quoted(p.id@) + ",\"scope\":"@
        + json_quoted(p.scope@) + ",\"severity\":"@ + json_quoted(severity_text(p.severity)) + ",\"title\":"@
        + json_quoted(p.title@) + "}"@
}

fn probe_json(p: &Probe) -> (text: String)
    ensures
        text@ == probe_object(*p),
{
    let mut text = String::new();
    text.append("{\"category\":");
    text.append(json_string(p.category.as_str()).as_str());
    text.append(",\"id\":");
    text.append(json_string(p.id.as_str()).as_str());
    text.append(",\"scope\":");
    text.append(json_string(p.scope.as_str()).as_str());
    text.append(",\"severity\":");
    text.append(json_string(p.severity.as_str()).as_str());
    text.append(",\"title\":");
    text.append(json_string(p.title.as_str()).as_str());
    text.append("}");
    text
}

/// `viv doctor --list --json`: the catalog enumerated under `checks`, nothing probed.
pub fn doctor_list_json(catalog: &Vec<Probe>) -> (text: String)
    ensures
        text@ == "{\"checks\":["@ + joined(catalog@.map_values(|p: Probe| probe_object(p)), ","@) + "]}\n"@,
{
    let mut objects: Vec<String> = Vec::new();
    let mut i: usize = 0;
    while i < catalog.len()
        invariant
            i <= catalog.len(),
            texts(objects@) == catalog@.subrange(0, i as int).map_values(|p: Probe| probe_object(p)),
        decreases catalog.len() - i,
    {
        let ghost before = objects@;
        objects.push(probe_json(&catalog[i]));
        assert(texts(objects@) =~= texts(before).push(probe_object(catalog@[i as int])));
        assert(catalog@.subrange(0, i + 1).map_values(|p: Probe| probe_object(p)) =~= catalog@.subrange(0, i as int).map_values(|p: Probe| probe_object(p)).push(probe_object(catalog@[i as int])));
        i = i + 1;
    }
    assert(catalog@.subrange(0, catalog@.len() as int) =~= catalog@);
    let mut text = String::new();
    text.append("{\"checks\":[");
    text.append(join_texts(&objects, ",").as_str());
    text.append("]}\n");
    text
}

/// Where the first hard failure stands, from `i` on.
pub open spec fn first_hard_index(f: Seq<Finding>, i: int) -> Option<int>
    decreases f.len() - i,
{
    if i < 0 || i >= f.len() {
        None
    } else if f[i].status == Status::Fail && f[i].probe.severity == Severity::Hard {
        Some(i)
    } else {
        first_hard_index(f, i + 1)
    }
}

/// The refusal a launch's preflight makes of a hard failure: the probe's own id, message, code,
/// and hint, located at the preflight.
pub open spec fn preflight_refusal_of(x: Finding, f: Failure) -> bool {
    f matches Failure::Diagnosed { diagnostic: d, code } && d.namespace == Namespace::Host && d.id@ == x.probe.id@
        && d.what@ == x.message@ && (match d.locus {
            Locus::Named(n) => n@ == "host preflight"@,
            Locus::File(_) => false,
        })
        && d.why@ == "a launch needs every hard check in the doctor catalog, and this one refused before any side effect"@
        && code == (match x.probe.code {
            Some(c) => c,
            None => ExitKind::Software,
        })
        && (match (d.hint, x.hint) {
            (Some(a), Some(b)) => a@ == b@,
            (None, None) => true,
            _ => false,
        })
}

/// A launch's preflight: the first hard failure of the catalog, in catalog order, refuses the
/// launch before any side effect; no hard failure lets it proceed.
pub fn preflight_refusal(findings: &Vec<Finding>) -> (r: Option<Failure>)
    ensures
        match first_hard_index(findings@, 0) {
            Some(k) => r matches Some(f) && preflight_refusal_of(findings@[k], f),
            None => r is None,
        },
{
    let mut i: usize = 0;
    while i < findings.len()
        invariant
            i <= findings.len(),
            first_hard_index(findings@, 0) == first_hard_index(findings@, i as int),
        decreases findings.len() - i,
    {
        let x = &findings[i];
        if x.status == Status::Fail && x.probe.severity == Severity::Hard {
            let failure = diagnosed(
                Namespace::Host,
                x.probe.id.as_str(),
                x.message.clone(),
                Locus::Named("host preflight".to_owned()),
                "a launch needs every hard check in the doctor catalog, and this one refused before any side effect".to_owned(),
                match x.probe.code {
                    Some(c) => c,
                    None => ExitKind::Software,
                },
            );
            return Some(match &x.hint {
                Some(h) => failure.with_hint(h.clone()),
                None => failure,
            });
        }
        i = i + 1;
    }
    None
}

} // verus!
