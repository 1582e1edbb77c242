//! What a command costs when it fails: a usage error, or a diagnosed failure with its code.
//!
//! A diagnosed failure renders as one block for a human and as one JSON object under `--json`;
//! a usage error renders as the message and the usage line.
use vstd::prelude::*;
use crate::exit::{code_of, ExitKind};
use crate::grammar::{Output, UsageError};
use crate::text::{dec, decimal, json_quoted, json_string, push_decimal};

verus! {

/// The area a diagnostic id belongs to.
#[derive(Clone, Copy, Debug, PartialEq, Eq, Structural)]
pub enum Namespace {
    Guest,
    Host,
    Internal,
    Lock,
    Manifest,
    Merge,
    State,
    Store,
    Vm,
}

/// The spelling of a namespace in a diagnostic id.
pub open spec fn namespace_text(n: Namespace) -> Seq<char> {
    match n {
        Namespace::Guest => "guest"@,
        Namespace::Host => "host"@,
        Namespace::Internal => "internal"@,
        Namespace::Lock => "lock"@,
        Namespace::Manifest => "manifest"@,
        Namespace::Merge => "merge"@,
        Namespace::State => "state"@,
        Namespace::Store => "store"@,
        Namespace::Vm => "vm"@,
    }
}

impl Namespace {
    /// The spelling of this namespace in a diagnostic id.
    pub fn as_str(self) -> (s: &'static str)
        ensures
            s@ == namespace_text(self),
    {
        match self {
            Namespace::Guest => "guest",
            Namespace::Host => "host",
            Namespace::Internal => "internal",
            Namespace::Lock => "lock",
            Namespace::Manifest => "manifest",
            Namespace::Merge => "merge",
            Namespace::State => "state",
            Namespace::Store => "store",
            Namespace::Vm => "vm",
        }
    }
}

/// Where a diagnosed failure happened: a named stage, or a file.
#[derive(Clone, Debug)]
pub enum Locus {
    Named(String),
    File(String),
}

/// A vivarium-origin failure: its id, what happened, where, why, and the remedy when one exists.
#[derive(Clone, Debug)]
pub struct Diagnostic {
    pub namespace: Namespace,
    pub id: String,
    pub what: String,
    pub locus: Locus,
    pub why: String,
    pub hint: Option<String>,
}

/// What a command cost when it did not succeed.
#[derive(Clone, Debug)]
pub enum Failure {
    /// A malformed invocation.
    Usage(UsageError),
    /// A vivarium-origin failure and the code it exits with.
    Diagnosed { diagnostic: Diagnostic, code: ExitKind },
}

/// What a command produced.
pub struct Success {
    /// The result, for stdout.
    pub stdout: String,
    /// A note that accompanies a successful result, for stderr.
    pub notes: String,
}

impl Success {
    /// A result with nothing to add on stderr.
    pub fn plain(stdout: String) -> (s: Success)
        ensures
            s.stdout@ == stdout@,
            s.notes@ == Seq::<char>::empty(),
    {
        Success { stdout, notes: String::new() }
    }
}

/// The exit kind a failure costs.
pub open spec fn failure_code(f: Failure) -> ExitKind {
    match f {
        Failure::Usage(_) => ExitKind::Usage,
        Failure::Diagnosed { code, .. } => code,
    }
}

/// A diagnosed failure.
pub fn diagnosed(namespace: Namespace, id: &str, what: String, locus: Locus, why: String, code: ExitKind) -> (f: Failure)
    ensures
        f matches Failure::Diagnosed { diagnostic, code: c } && c == code && diagnostic.namespace
            == namespace && diagnostic.id@ == id@ && diagnostic.what@ == what@ && diagnostic.locus
            == locus && diagnostic.why@ == why@ && diagnostic.hint is None,
{
    Failure::Diagnosed {
        diagnostic: Diagnostic { namespace, id: id.to_owned(), what, locus, why, hint: None },
        code,
    }
}

/// Whether `f` is the diagnosed failure with exactly these parts.
pub open spec fn diagnostic_is(f: Failure, namespace: Namespace, id: Seq<char>, what: Seq<char>, locus: (bool, Seq<char>), why: Seq<char>, code: ExitKind, hint: Seq<char>) -> bool {
    match f {
        Failure::Diagnosed { diagnostic: d, code: c } => {
            &&& c == code
            &&& d.namespace == namespace
            &&& d.id@ == id
            &&& d.what@ == what
            &&& (match d.locus {
                Locus::Named(n) => locus.0 && n@ == locus.1,
                Locus::File(p) => !locus.0 && p@ == locus.1,
            })
            &&& d.why@ == why
            &&& (match d.hint {
                Some(h) => h@ == hint,
                None => false,
            })
        },
        Failure::Usage(_) => false,
    }
}

/// The text of a locus.
pub open spec fn locus_text(l: Locus) -> Seq<char> {
    match l {
        Locus::Named(s) => s@,
        Locus::File(s) => s@,
    }
}

/// The human block of a diagnostic.
pub open spec fn diagnostic_block(d: Diagnostic) -> Seq<char> {
    "error["@ + namespace_text(d.namespace) + "."@ + d.id@ + "]: "@ + d.what@ + "\n  where: "@
        + locus_text(d.locus) + "\n  why: "@ + d.why@ + match d.hint {
        Some(h) => "\n  hint: "@ + h@,
        None => Seq::empty(),
    }
}

/// The JSON object of a diagnostic and the code it exits with, keys in sorted order.
pub open spec fn diagnostic_object(d: Diagnostic, code: u8) -> Seq<char> {
    "{\"code\":"@ + dec(code as nat) + ",\"hint\":"@ + match d.hint {
        Some(h) => json_quoted(h@),
        None => "null"@,
    } + ",\"id\":"@ + json_quoted(namespace_text(d.namespace) + "."@ + d.id@) + ",\"what\":"@
        + json_quoted(d.what@) + ",\"where\":"@ + json_quoted(locus_text(d.locus)) + ",\"why\":"@
        + json_quoted(d.why@) + "}"@
}

/// Everything a failure writes to stderr, in the requested form.
pub open spec fn failure_text(f: Failure, output: Output) -> Seq<char> {
    match f {
        Failure::Usage(e) => "viv: "@ + e.message@ + "\n"@ + match e.usage {
            Some(u) => "usage: "@ + u@ + "\n"@,
            None => Seq::empty(),
        },
        Failure::Diagnosed { diagnostic, code } => if output == Output::Json {
            diagnostic_object(diagnostic, code_of(code)) + "\n"@
        } else {
            diagnostic_block(diagnostic) + "\n"@
        },
    }
}

fn push_locus(out: &mut String, locus: &Locus)
    ensures
        final(out)@ == old(out)@ + locus_text(*locus),
{
    match locus {
        Locus::Named(s) => out.append(s.as_str()),
        Locus::File(s) => out.append(s.as_str()),
    }
}

fn locus_string(locus: &Locus) -> (s: String)
    ensures
        s@ == locus_text(*locus),
{
    let mut s = String::new();
    push_locus(&mut s, locus);
    s
}

impl Failure {
    /// The code a caller reads from `$?`.
    pub fn code(&self) -> (kind: ExitKind)
        ensures
            kind == failure_code(*self),
    {
        match self {
            Failure::Usage(_) => ExitKind::Usage,
            Failure::Diagnosed { code, .. } => *code,
        }
    }

    /// Everything this failure writes to stderr, in the form the requested output selects.
    pub fn render(&self, output: Output) -> (text: String)
        ensures
            text@ == failure_text(*self, output),
    {
        match self {
            Failure::Usage(error) => {
                let mut rendered = String::new();
                rendered.append("viv: ");
                rendered.append(error.message.as_str());
                rendered.append("\n");
                match error.usage {
                    Some(usage) => {
                        rendered.append("usage: ");
                        rendered.append(usage);
                        rendered.append("\n");
                    },
                    None => {},
                }
                rendered
            },
            Failure::Diagnosed { diagnostic, code } => {
                let mut rendered = String::new();
                if output.is_json() {
                    rendered.append("{\"code\":");
                    push_decimal(&mut rendered, code.code() as u64);
                    rendered.append(",\"hint\":");
                    match &diagnostic.hint {
                        Some(h) => {
                            let q = json_string(h.as_str());
                            rendered.append(q.as_str());
                        },
                        None => rendered.append("null"),
                    }
                    rendered.append(",\"id\":");
                    let mut id = String::new();
                    id.append(diagnostic.namespace.as_str());
                    id.append(".");
                    id.append(diagnostic.id.as_str());
                    let q = json_string(id.as_str());
                    rendered.append(q.as_str());
                    rendered.append(",\"what\":");
                    let q = json_string(diagnostic.what.as_str());
                    rendered.append(q.as_str());
                    rendered.append(",\"where\":");
                    let l = locus_string(&diagnostic.locus);
                    let q = json_string(l.as_str());
                    rendered.append(q.as_str());
                    rendered.append(",\"why\":");
                    let q = json_string(diagnostic.why.as_str());
                    rendered.append(q.as_str());
                    rendered.append("}");
                } else {
                    rendered.append("error[");
                    rendered.append(diagnostic.namespace.as_str());
                    rendered.append(".");
                    rendered.append(diagnostic.id.as_str());
                    rendered.append("]: ");
                    rendered.append(diagnostic.what.as_str());
                    rendered.append("\n  where: ");
                    push_locus(&mut rendered, &diagnostic.locus);
                    rendered.append("\n  why: ");
                    rendered.append(diagnostic.why.as_str());
                    match &diagnostic.hint {
                        Some(h) => {
                            rendered.append("\n  hint: ");
                            rendered.append(h.as_str());
                        },
                        None => {},
                    }
                }
                rendered.append("\n");
                rendered
            },
        }
    }

    /// This failure as the error of a result.
    pub fn into_err<T>(self) -> (r: Result<T, Failure>)
        ensures
            r == Err::<T, Failure>(self),
    {
        Err(self)
    }

    /// Adds the remedy line to an already-diagnosed failure; a usage error is returned unchanged.
    pub fn with_hint(self, hint: String) -> (f: Failure)
        ensures
            match self {
                Failure::Usage(_) => f == self,
                Failure::Diagnosed { diagnostic, code } => f matches Failure::Diagnosed { diagnostic: d, code: c }
                    && c == code && d.namespace == diagnostic.namespace && d.id == diagnostic.id
                    && d.what == diagnostic.what && d.locus == diagnostic.locus && d.why
                    == diagnostic.why && d.hint == Some(hint),
            },
    {
        match self {
            Failure::Diagnosed { diagnostic, code } => Failure::Diagnosed {
                diagnostic: Diagnostic { hint: Some(hint), ..diagnostic },
                code,
            },
            usage => usage,
        }
    }
}

/// One step of the sweep's failure fold: the slot keeps what it holds, or takes `failure`.
pub open spec fn recorded(slot: Option<Failure>, failure: Failure) -> Option<Failure> {
    match slot {
        Some(f) => Some(f),
        None => Some(failure),
    }
}

/// The slot after recording each of `failures` in turn.
pub open spec fn swept(slot: Option<Failure>, failures: Seq<Failure>) -> Option<Failure>
    decreases failures.len(),
{
    if failures.len() == 0 {
        slot
    } else {
        swept(recorded(slot, failures[0]), failures.drop_first())
    }
}

/// The sweep's failure fold: the first failure is the result, and a later one never displaces it.
pub fn record_failure(first: &mut Option<Failure>, failure: Failure)
    ensures
        *final(first) == recorded(*old(first), failure),
{
    if first.is_none() {
        *first = Some(failure);
    }
}

/// A sweep that starts empty and records failures in turn ends holding the first of them,
/// however many follow; one that already holds a failure keeps it.
pub proof fn law_first_failure_is_kept(slot: Option<Failure>, failures: Seq<Failure>)
    ensures
        slot is Some ==> swept(slot, failures) == slot,
        slot is None && failures.len() > 0 ==> swept(slot, failures) == Some(failures[0]),
    decreases failures.len(),
{
    if failures.len() > 0 {
        law_first_failure_is_kept(recorded(slot, failures[0]), failures.drop_first());
    }
}

} // verus!
