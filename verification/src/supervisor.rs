//! The supervisor's command line, the checks it makes before trusting a launch specification, and
//! the exit category of each way it can fail.
//!
//! The launcher constructs exactly one invocation, so anything else is a usage error rather than
//! something to interpret.
use vstd::prelude::*;
use crate::exit::ExitKind;
use crate::grammar::{copy_bytes, spelled, toks, token_is};
use crate::text::texts;
use crate::verbs::absolute;
use crate::agent::{components, normal_components};

verus! {

/// What the supervisor was asked to do.
#[derive(Clone, Debug, PartialEq, Eq)]
pub enum SupervisorInvocation {
    /// Supervise the specification and report readiness on the handoff socket.
    Supervise { spec: Vec<u8>, ready: Vec<u8> },
    /// Raise the namespace's forwarding sysctl.
    NetInit,
    /// Serve the gating resolver for the specification.
    Resolver { spec: Vec<u8> },
}

/// A supervisor invocation as plain values.
pub enum SupervisorInvocationView {
    Supervise { spec: Seq<u8>, ready: Seq<u8> },
    NetInit,
    Resolver { spec: Seq<u8> },
}

impl View for SupervisorInvocation {
    type V = SupervisorInvocationView;

    open spec fn view(&self) -> SupervisorInvocationView {
        match self {
            SupervisorInvocation::Supervise { spec, ready } => SupervisorInvocationView::Supervise {
                spec: spec@,
                ready: ready@,
            },
            SupervisorInvocation::NetInit => SupervisorInvocationView::NetInit,
            SupervisorInvocation::Resolver { spec } => SupervisorInvocationView::Resolver {
                spec: spec@,
            },
        }
    }
}

/// Which path the supervisor inspects before trusting the specification.
#[derive(Clone, Copy, Debug, PartialEq, Eq, Structural)]
pub enum Inspected {
    LaunchSpecification,
    RuntimeDirectory,
}

/// Every way the supervisor can fail. The underlying causes, which the report lists beneath the
/// failure, travel beside it.
#[derive(Clone, Copy, Debug, PartialEq, Eq, Structural)]
pub enum SupervisorError {
    Usage,
    UntrustedSpecFile,
    SpecPathMismatch,
    ReadSpec,
    InspectPath { what: Inspected },
    InvalidSpec,
    ReportReadiness,
    EncodeReadiness,
    Supervision,
    SupervisionTask,
    ReadinessNotReported,
    NetInit,
    ResolverBind,
    ResolverServe,
}

/// The exit category of each failure: a malformed or untrusted request is usage, an I/O condition
/// is I/O, and a defect of this program is software.
pub open spec fn supervisor_exit_spec(e: SupervisorError) -> ExitKind {
    match e {
        SupervisorError::Usage | SupervisorError::UntrustedSpecFile
        | SupervisorError::SpecPathMismatch | SupervisorError::InvalidSpec => ExitKind::Usage,
        SupervisorError::ReadSpec | SupervisorError::InspectPath { .. } | SupervisorError::ReportReadiness
        | SupervisorError::NetInit | SupervisorError::ResolverBind
        | SupervisorError::ResolverServe => ExitKind::IoErr,
        SupervisorError::EncodeReadiness | SupervisorError::Supervision
        | SupervisorError::SupervisionTask | SupervisorError::ReadinessNotReported =>
            ExitKind::Software,
    }
}

impl SupervisorError {
    /// The exit category, chosen in one place rather than at each failing call.
    pub fn exit_code(&self) -> (kind: ExitKind)
        ensures
            kind == supervisor_exit_spec(*self),
    {
        match self {
            SupervisorError::Usage | SupervisorError::UntrustedSpecFile
            | SupervisorError::SpecPathMismatch | SupervisorError::InvalidSpec => ExitKind::Usage,
            SupervisorError::ReadSpec | SupervisorError::InspectPath { .. }
            | SupervisorError::ReportReadiness | SupervisorError::NetInit
            | SupervisorError::ResolverBind | SupervisorError::ResolverServe => ExitKind::IoErr,
            SupervisorError::EncodeReadiness | SupervisorError::Supervision
            | SupervisorError::SupervisionTask | SupervisorError::ReadinessNotReported =>
                ExitKind::Software,
        }
    }
}

/// What each failure says in the journal.
pub open spec fn supervisor_message(e: SupervisorError) -> Seq<char> {
    match e {
        SupervisorError::Usage => "invalid invocation: expected `--spec <path> --ready-socket <path>` (both absolute), `net-init`, or `resolver --spec <path>`"@,
        SupervisorError::UntrustedSpecFile => "the launch specification and its directory do not satisfy the ownership and mode rule"@,
        SupervisorError::SpecPathMismatch => "the launch specification does not describe the paths this process was handed"@,
        SupervisorError::ReadSpec => "cannot read the launch specification"@,
        SupervisorError::InspectPath { what } => "cannot inspect the "@ + (match what {
            Inspected::LaunchSpecification => "launch specification"@,
            Inspected::RuntimeDirectory => "runtime directory"@,
        }) + " before trusting it"@,
        SupervisorError::InvalidSpec => "the launch specification is not valid"@,
        SupervisorError::ReportReadiness => "cannot report readiness on the handoff socket"@,
        SupervisorError::EncodeReadiness => "cannot encode the readiness report"@,
        SupervisorError::Supervision => "supervision failed"@,
        SupervisorError::SupervisionTask => "the supervision task did not run to completion"@,
        SupervisorError::ReadinessNotReported => "supervision ended before it reported process readiness"@,
        SupervisorError::NetInit => "cannot raise the namespace's forwarding sysctl"@,
        SupervisorError::ResolverBind => "the gating resolver cannot bind its socket"@,
        SupervisorError::ResolverServe => "the gating resolver's socket failed"@,
    }
}

impl SupervisorError {
    /// The failure in one sentence.
    pub fn message(&self) -> (m: String)
        ensures
            m@ == supervisor_message(*self),
    {
        match self {
            SupervisorError::Usage => "invalid invocation: expected `--spec <path> --ready-socket <path>` (both absolute), `net-init`, or `resolver --spec <path>`".to_owned(),
            SupervisorError::UntrustedSpecFile => "the launch specification and its directory do not satisfy the ownership and mode rule".to_owned(),
            SupervisorError::SpecPathMismatch => "the launch specification does not describe the paths this process was handed".to_owned(),
            SupervisorError::ReadSpec => "cannot read the launch specification".to_owned(),
            SupervisorError::InspectPath { what } => {
                let mut m = String::new();
                m.append("cannot inspect the ");
                match what {
                    Inspected::LaunchSpecification => m.append("launch specification"),
                    Inspected::RuntimeDirectory => m.append("runtime directory"),
                }
                m.append(" before trusting it");
                m
            },
            SupervisorError::InvalidSpec => "the launch specification is not valid".to_owned(),
            SupervisorError::ReportReadiness => "cannot report readiness on the handoff socket".to_owned(),
            SupervisorError::EncodeReadiness => "cannot encode the readiness report".to_owned(),
            SupervisorError::Supervision => "supervision failed".to_owned(),
            SupervisorError::SupervisionTask => "the supervision task did not run to completion".to_owned(),
            SupervisorError::ReadinessNotReported => "supervision ended before it reported process readiness".to_owned(),
            SupervisorError::NetInit => "cannot raise the namespace's forwarding sysctl".to_owned(),
            SupervisorError::ResolverBind => "the gating resolver cannot bind its socket".to_owned(),
            SupervisorError::ResolverServe => "the gating resolver's socket failed".to_owned(),
        }
    }
}

/// The cause lines beneath a failure, innermost last.
pub open spec fn cause_lines(causes: Seq<Seq<char>>) -> Seq<char>
    decreases causes.len(),
{
    if causes.len() == 0 {
        Seq::empty()
    } else {
        cause_lines(causes.drop_last()) + "  caused by: "@ + causes.last() + "\n"@
    }
}

/// What the supervisor writes to the journal when it fails: the failure, then each cause in turn,
/// so the operator can tell which child died rather than reading a bare number.
pub fn report(error: &SupervisorError, causes: &Vec<String>) -> (text: String)
    ensures
        text@ == "vivarium-supervisor: "@ + supervisor_message(*error) + "\n"@ + cause_lines(texts(causes@)),
{
    let mut text = String::new();
    text.append("vivarium-supervisor: ");
    text.append(error.message().as_str());
    text.append("\n");
    let ghost head = text@;
    let mut i: usize = 0;
    while i < causes.len()
        invariant
            i <= causes.len(),
            text@ == head + cause_lines(texts(causes@).subrange(0, i as int)),
        decreases causes.len() - i,
    {
        assert(texts(causes@).subrange(0, i + 1).drop_last() =~= texts(causes@).subrange(0, i as int));
        text.append("  caused by: ");
        text.append(causes[i].as_str());
        text.append("\n");
        i = i + 1;
    }
    assert(texts(causes@).subrange(0, causes@.len() as int) =~= texts(causes@));
    text
}

/// The three invocations the launcher constructs, program name first; anything else is usage.
pub open spec fn arguments_spec(a: Seq<Seq<u8>>) -> Result<SupervisorInvocationView, SupervisorError> {
    if a.len() < 2 {
        Err(SupervisorError::Usage)
    } else if spelled(a[1], "net-init") {
        if a.len() > 2 {
            Err(SupervisorError::Usage)
        } else {
            Ok(SupervisorInvocationView::NetInit)
        }
    } else if spelled(a[1], "resolver") {
        if a.len() < 3 || !spelled(a[2], "--spec") || a.len() < 4 || a.len() > 4 || !absolute(a[3]) {
            Err(SupervisorError::Usage)
        } else {
            Ok(SupervisorInvocationView::Resolver { spec: a[3] })
        }
    } else if !spelled(a[1], "--spec") || a.len() < 3 || a.len() < 4 || !spelled(a[3], "--ready-socket")
        || a.len() < 5 || a.len() > 5 || !absolute(a[2]) || !absolute(a[4]) {
        Err(SupervisorError::Usage)
    } else {
        Ok(SupervisorInvocationView::Supervise { spec: a[2], ready: a[4] })
    }
}

fn rooted(b: &Vec<u8>) -> (r: bool)
    ensures
        r == absolute(b@),
{
    b.len() > 0 && b[0] == 47
}

/// Parses the supervisor's command line.
pub fn arguments(argv: &Vec<Vec<u8>>) -> (r: Result<SupervisorInvocation, SupervisorError>)
    ensures
        match r {
            Ok(i) => arguments_spec(toks(argv@)) == Ok::<SupervisorInvocationView, SupervisorError>(i@),
            Err(e) => arguments_spec(toks(argv@)) == Err::<SupervisorInvocationView, SupervisorError>(e),
        },
{
    let ghost a = toks(argv@);
    let n = argv.len();
    if n < 2 {
        return Err(SupervisorError::Usage);
    }
    assert(a[1] == argv@[1]@);
    if token_is(&argv[1], "net-init") {
        if n > 2 {
            return Err(SupervisorError::Usage);
        }
        return Ok(SupervisorInvocation::NetInit);
    }
    if token_is(&argv[1], "resolver") {
        if n < 3 {
            return Err(SupervisorError::Usage);
        }
        assert(a[2] == argv@[2]@);
        if !token_is(&argv[2], "--spec") || n != 4 {
            return Err(SupervisorError::Usage);
        }
        assert(a[3] == argv@[3]@);
        if !rooted(&argv[3]) {
            return Err(SupervisorError::Usage);
        }
        return Ok(SupervisorInvocation::Resolver { spec: copy_bytes(&argv[3]) });
    }
    if !token_is(&argv[1], "--spec") || n < 4 {
        return Err(SupervisorError::Usage);
    }
    assert(a[2] == argv@[2]@);
    assert(a[3] == argv@[3]@);
    if !token_is(&argv[3], "--ready-socket") || n != 5 {
        return Err(SupervisorError::Usage);
    }
    assert(a[4] == argv@[4]@);
    if !rooted(&argv[2]) || !rooted(&argv[4]) {
        return Err(SupervisorError::Usage);
    }
    Ok(SupervisorInvocation::Supervise { spec: copy_bytes(&argv[2]), ready: copy_bytes(&argv[4]) })
}

/// An absolute path's parent, as its normal components; the root has none.
pub open spec fn parent_components(p: Seq<u8>) -> Option<Seq<Seq<u8>>> {
    let c = normal_components(p);
    if c.len() == 0 {
        None
    } else {
        Some(c.drop_last())
    }
}

/// Where the specification may be trusted from: it and the readiness socket both absolute, and
/// in one directory, compared as paths compare, by component.
pub open spec fn spec_location_trusted_spec(spec: Seq<u8>, ready: Seq<u8>) -> bool {
    absolute(spec) && absolute(ready) && parent_components(spec) == parent_components(ready)
}

fn same_bytes(a: &Vec<u8>, b: &Vec<u8>) -> (same: bool)
    ensures
        same == (a@ == b@),
{
    if a.len() != b.len() {
        return false;
    }
    let mut i: usize = 0;
    while i < a.len()
        invariant
            i <= a.len() == b.len(),
            forall|k: int| 0 <= k < i ==> a@[k] == b@[k],
        decreases a.len() - i,
    {
        if a[i] != b[i] {
            return false;
        }
        i = i + 1;
    }
    assert(a@ =~= b@);
    true
}

/// Whether the specification's and the readiness socket's locations can be trusted.
pub fn spec_location_trusted(spec: &[u8], ready: &[u8]) -> (trusted: bool)
    ensures
        trusted == spec_location_trusted_spec(spec@, ready@),
{
    if !(spec.len() > 0 && spec[0] == 47 && ready.len() > 0 && ready[0] == 47) {
        return false;
    }
    let a = components(spec);
    let b = components(ready);
    let ghost sa = a@.map_values(|v: Vec<u8>| v@);
    let ghost sb = b@.map_values(|v: Vec<u8>| v@);
    if a.len() == 0 || b.len() == 0 {
        return a.len() == 0 && b.len() == 0;
    }
    if a.len() != b.len() {
        assert(sa.drop_last().len() != sb.drop_last().len());
        return false;
    }
    let mut k: usize = 0;
    while k + 1 < a.len()
        invariant
            a.len() == b.len() > 0,
            k + 1 <= a.len(),
            sa == a@.map_values(|v: Vec<u8>| v@),
            sb == b@.map_values(|v: Vec<u8>| v@),
            sa == normal_components(spec@),
            sb == normal_components(ready@),
            forall|j: int| 0 <= j < k ==> sa[j] == sb[j],
        decreases a.len() - k,
    {
        if !same_bytes(&a[k], &b[k]) {
            assert(sa[k as int] == a@[k as int]@ && sb[k as int] == b@[k as int]@);
            assert(sa.drop_last()[k as int] != sb.drop_last()[k as int]);
            assert(parent_components(spec@) != parent_components(ready@));
            return false;
        }
        k = k + 1;
    }
    assert(sa.drop_last() =~= sb.drop_last());
    true
}

/// What the supervisor reads of a path's own metadata.
#[derive(Clone, Copy, Debug)]
pub struct PathFacts {
    pub is_file: bool,
    pub is_symlink: bool,
    pub mode: u32,
    pub uid: u32,
}

/// Whether a specification file can be trusted: a regular file, not a link, private to its
/// owner, in a private directory of the same owner.
pub open spec fn metadata_trusted_spec(spec: PathFacts, parent: PathFacts, file_mode: u32, dir_mode: u32) -> bool {
    &&& spec.is_file
    &&& !spec.is_symlink
    &&& spec.mode & 0o777 == file_mode
    &&& parent.mode & 0o777 == dir_mode
    &&& spec.uid == parent.uid
}

/// Whether the metadata of the specification and its directory can be trusted, given the modes
/// the launcher writes them with.
pub fn metadata_trusted(spec: PathFacts, parent: PathFacts, file_mode: u32, dir_mode: u32) -> (trusted: bool)
    ensures
        trusted == metadata_trusted_spec(spec, parent, file_mode, dir_mode),
{
    spec.is_file && !spec.is_symlink && spec.mode & 0o777 == file_mode && parent.mode & 0o777 == dir_mode
        && spec.uid == parent.uid
}

} // verus!
