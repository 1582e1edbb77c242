//! Whether the VM behind a target can be reused by a session, after repairing what is stale,
//! as a machine: the caller looks at the runtime directory, asks whether the VM is present, and
//! pings its agent as told, and `reuse_step` decides.
//!
//! A cold start is chosen only for a target with nothing live behind it, and a stale record is
//! repaired only for a VM that is positively dead: a VM that is running and merely confusing is
//! refused, never torn down.
use vstd::prelude::*;
use crate::exit::ExitKind;
use crate::failure::{diagnosed, diagnostic_is, Failure, Locus, Namespace};
use crate::lifecycle::{same_text, Presence, Runtime};
use crate::paths::join;
use crate::text::{dec, push_decimal, texts};

verus! {

/// The fields of a boot record the reuse decision reads.
pub struct BootMetadata {
    pub schema_version: u32,
    pub boot_identity: String,
    pub sandbox_id: String,
    pub target: String,
    pub backend: String,
    pub workspace_paths: Vec<String>,
}

/// What one read of `boot.json` found, with skew kept apart from corruption.
pub enum BootRecord {
    /// No record.
    Absent,
    /// A record this binary cannot make sense of at all.
    Unreadable,
    /// A record whose envelope reads but names another version's launch schema.
    Skewed(u32),
    /// This version's own record.
    Ready(BootMetadata),
}

/// Why the decision is waiting on the VM's presence.
#[derive(Clone, Copy, Debug, PartialEq, Eq, Structural)]
pub enum PresenceQuestion {
    /// The control socket is missing.
    NoSocket,
    /// The record was written by another version, with this launch schema.
    Skewed(u32),
    /// The record is missing or unreadable.
    NoRecord,
    /// The record names another declared workspace set.
    OtherWorkspaces,
    /// The record names another backend.
    OtherBackend,
    /// The agent did not answer the first ping.
    Silent,
}

/// Where the decision is.
pub enum ReusePhase {
    /// Nothing has been looked at.
    Start,
    /// Waiting on the VM's presence, for this reason; the record is kept for a later ping.
    Asking { question: PresenceQuestion, kept: Option<BootMetadata> },
    /// The first, short ping of this record's agent is in flight.
    Pinging { boot: BootMetadata },
    /// A live VM's agent is being waited for.
    Waiting { boot: BootMetadata },
    /// Decided.
    Done,
}

/// What the caller found.
pub enum ReuseEvent {
    /// Whether the control socket exists, and what `boot.json` holds.
    Looked { socket_exists: bool, record: BootRecord },
    /// What is behind the records.
    Presence(Presence),
    /// Whether the agent completed an authorized handshake in time.
    Pinged(bool),
}

/// What the caller does next.
pub enum ReuseAction {
    /// Judge the VM's presence from its pid record and its unit.
    AskPresence,
    /// Ping the recorded agent, briefly or patiently.
    Ping { patient: bool },
    /// Nothing live is there: boot a new VM.
    ColdStart,
    /// The VM is dead and its records are stale: stop its unit, remove the records, boot anew.
    RepairThenColdStart,
    /// The VM is there and answered: attach to it.
    Reuse(BootMetadata),
    /// Neither reusing nor replacing the VM is safe.
    Refuse(Failure),
}

/// What the decision needs besides the events: where the records live, which sandbox this
/// invocation means, its declared workspaces, the backend and launch schema this binary speaks,
/// and how long the patient ping waits.
pub struct ReuseContext {
    pub runtime: Runtime,
    pub sandbox_id: String,
    pub workspace_paths: Vec<String>,
    pub backend: String,
    pub schema: u32,
    pub agent_timeout_seconds: u64,
}

pub open spec fn undecided_why(what: Seq<char>) -> Seq<char> {
    what + ", the recorded process is alive, and the unit that owns its lifetime could not be asked — so neither reusing this VM nor replacing it is safe"@
}

/// The refusal when the VM's presence cannot be established.
pub open spec fn is_undecided(f: Failure, rt: Runtime, what: Seq<char>) -> bool {
    diagnostic_is(f, Namespace::Vm, "vm-presence-undecided"@, "whether this project's VM is still running could not be determined"@,
        (false, join(rt.directory@, "vm.pid"@)), undecided_why(what), ExitKind::Unavailable,
        "check `systemctl --user status <unit>`, then run `viv stop` if the VM is gone"@)
}

pub open spec fn foreign_why(why: Seq<char>) -> Seq<char> {
    why + ", so reusing it would attach a session to the wrong VM, and replacing it would tear down a VM this invocation does not own"@
}

/// The refusal of a record that describes a VM this invocation did not ask for.
pub open spec fn is_foreign(f: Failure, rt: Runtime, why: Seq<char>) -> bool {
    diagnostic_is(f, Namespace::Vm, "foreign-boot-record"@, "this target's runtime directory holds a boot record for another VM"@,
        (false, join(rt.directory@, "boot.json"@)), foreign_why(why), ExitKind::Unavailable,
        "run `viv stop` for the project that owns it, or remove the stale record"@)
}

/// The refusal of a VM that is alive and cannot be reached.
pub open spec fn is_unreachable(f: Failure, rt: Runtime, why: Seq<char>) -> bool {
    diagnostic_is(f, Namespace::Vm, "agent-unreachable"@, "the VM is running but a session could not reach its guest agent"@,
        (false, join(rt.directory@, "control.sock"@)), why, ExitKind::Unavailable,
        "run `viv stop` and start again, or check `journalctl --user -u <unit>`"@)
}

/// The refusal of a live VM whose record another version wrote.
pub open spec fn is_skew(f: Failure, rt: Runtime, theirs: u32, ours: u32) -> bool {
    diagnostic_is(f, Namespace::Vm, "boot-record-skew"@, "the VM's boot record was written by another vivarium version"@,
        (false, join(rt.directory@, "boot.json"@)), "the record carries launch schema "@ + dec(theirs as nat)
            + " and this viv speaks "@ + dec(ours as nat) + ", so it cannot authorize a session against the running VM"@,
        ExitKind::Config, "run `viv stop`, then `viv start`, so this version boots and records the VM"@)
}

/// Whether `action` refuses with a failure meeting `p`.
pub open spec fn refuses(action: ReuseAction, p: spec_fn(Failure) -> bool) -> bool {
    match action {
        ReuseAction::Refuse(f) => p(f),
        _ => false,
    }
}

/// What a dead VM's record question resolves to: a cold start for a missing socket, a repair
/// for everything else.
pub open spec fn dead_action(q: PresenceQuestion, action: ReuseAction) -> bool {
    match q {
        PresenceQuestion::NoSocket => action is ColdStart,
        _ => action is RepairThenColdStart,
    }
}

pub open spec fn handshake_why(seconds: u64) -> Seq<char> {
    "the control socket did not complete a handshake within "@ + dec(seconds as nat)
        + "s, and the VM's own process is still alive under its unit"@
}

/// What a live VM's record question resolves to.
pub open spec fn live_action(q: PresenceQuestion, boot: Option<BootMetadata>, c: ReuseContext, next: ReusePhase, action: ReuseAction) -> bool {
    match q {
        PresenceQuestion::NoSocket => next is Done && refuses(action, |f: Failure| is_unreachable(f, c.runtime,
            "the VM's own process is alive under its unit and its control socket is missing"@)),
        PresenceQuestion::Skewed(t) => next is Done && refuses(action, |f: Failure| is_skew(f, c.runtime, t, c.schema)),
        PresenceQuestion::NoRecord => next is Done && refuses(action, |f: Failure| is_unreachable(f, c.runtime,
            "the VM's own process is alive under its unit and its boot record cannot be read, so no connection to it can be authorized"@)),
        PresenceQuestion::OtherWorkspaces => next is Done && refuses(action, |f: Failure| is_foreign(f, c.runtime,
            "it names another declared workspace set"@)),
        PresenceQuestion::OtherBackend => next is Done && refuses(action, |f: Failure| is_foreign(f, c.runtime,
            "it names another backend"@)),
        PresenceQuestion::Silent => match boot {
            Some(b) => next == (ReusePhase::Waiting { boot: b }) && action == (ReuseAction::Ping { patient: true }),
            None => false,
        },
    }
}

/// The question's own words, where an undecided refusal names it.
pub open spec fn question_text(q: PresenceQuestion) -> Seq<char> {
    match q {
        PresenceQuestion::NoSocket => "its control socket is missing"@,
        PresenceQuestion::Skewed(_) => "its boot record was written by another vivarium version"@,
        PresenceQuestion::NoRecord => "its boot record cannot be read"@,
        PresenceQuestion::OtherWorkspaces => "it names another declared workspace set"@,
        PresenceQuestion::OtherBackend => "it names another backend"@,
        PresenceQuestion::Silent => "its guest agent did not answer a ping"@,
    }
}

/// Whether a record names this invocation's sandbox and the default target.
pub open spec fn names_this(b: BootMetadata, c: ReuseContext) -> bool {
    b.sandbox_id@ == c.sandbox_id@ && b.target@ == "default"@
}

/// Whether `event` is one the caller can report in `phase`.
pub open spec fn reuse_expects(phase: ReusePhase, event: ReuseEvent) -> bool {
    match phase {
        ReusePhase::Start => event is Looked,
        ReusePhase::Asking { question, kept } => event is Presence && (question == PresenceQuestion::Silent ==> kept is Some),
        ReusePhase::Pinging { .. } | ReusePhase::Waiting { .. } => event is Pinged,
        ReusePhase::Done => false,
    }
}

/// One step of the reuse decision.
pub open spec fn reuse_next(phase: ReusePhase, event: ReuseEvent, c: ReuseContext, next: ReusePhase, action: ReuseAction) -> bool {
    match (phase, event) {
        (ReusePhase::Start, ReuseEvent::Looked { socket_exists, record }) => if !socket_exists {
            next == (ReusePhase::Asking { question: PresenceQuestion::NoSocket, kept: None }) && action is AskPresence
        } else {
            match record {
                BootRecord::Skewed(t) => next == (ReusePhase::Asking { question: PresenceQuestion::Skewed(t), kept: None })
                    && action is AskPresence,
                BootRecord::Absent | BootRecord::Unreadable => next == (ReusePhase::Asking {
                    question: PresenceQuestion::NoRecord,
                    kept: None,
                }) && action is AskPresence,
                BootRecord::Ready(b) => if !names_this(b, c) {
                    next is Done && refuses(action, |f: Failure| is_foreign(f, c.runtime, "it names another sandbox or target"@))
                } else if texts(b.workspace_paths@) != texts(c.workspace_paths@) {
                    next == (ReusePhase::Asking { question: PresenceQuestion::OtherWorkspaces, kept: None })
                        && action is AskPresence
                } else if b.backend@ != c.backend@ {
                    next == (ReusePhase::Asking { question: PresenceQuestion::OtherBackend, kept: None })
                        && action is AskPresence
                } else {
                    next == (ReusePhase::Pinging { boot: b }) && action == (ReuseAction::Ping { patient: false })
                },
            }
        },
        (ReusePhase::Asking { question, kept: boot }, ReuseEvent::Presence(p)) => match p {
            Presence::Dead => next is Done && dead_action(question, action),
            Presence::Indeterminate => next is Done && refuses(action, |f: Failure| is_undecided(f, c.runtime, question_text(question))),
            Presence::Live => live_action(question, boot, c, next, action),
        },
        (ReusePhase::Pinging { boot }, ReuseEvent::Pinged(ok)) => if ok {
            next is Done && action == ReuseAction::Reuse(boot)
        } else {
            next == (ReusePhase::Asking { question: PresenceQuestion::Silent, kept: Some(boot) }) && action is AskPresence
        },
        (ReusePhase::Waiting { boot }, ReuseEvent::Pinged(ok)) => if ok {
            next is Done && action == ReuseAction::Reuse(boot)
        } else {
            next is Done && refuses(action, |f: Failure| is_unreachable(f, c.runtime, handshake_why(c.agent_timeout_seconds)))
        },
        _ => false,
    }
}

fn texts_equal(a: &Vec<String>, b: &Vec<String>) -> (same: bool)
    ensures
        same == (texts(a@) == texts(b@)),
{
    if a.len() != b.len() {
        proof {
            assert(texts(a@).len() != texts(b@).len());
        }
        return false;
    }
    let mut i: usize = 0;
    while i < a.len()
        invariant
            i <= a.len(),
            a.len() == b.len(),
            forall|k: int| 0 <= k < i ==> a@[k]@ == b@[k]@,
        decreases a.len() - i,
    {
        if !same_text(a[i].as_str(), b[i].as_str()) {
            proof {
                assert(texts(a@)[i as int] != texts(b@)[i as int]);
            }
            return false;
        }
        i = i + 1;
    }
    proof {
        assert(texts(a@) =~= texts(b@));
    }
    true
}

fn undecided(rt: &Runtime, what: &str) -> (f: Failure)
    ensures
        is_undecided(f, *rt, what@),
{
    let mut why = String::new();
    why.append(what);
    why.append(", the recorded process is alive, and the unit that owns its lifetime could not be asked — so neither reusing this VM nor replacing it is safe");
    diagnosed(
        Namespace::Vm,
        "vm-presence-undecided",
        "whether this project's VM is still running could not be determined".to_owned(),
        Locus::File(rt.vm_pid()),
        why,
        ExitKind::Unavailable,
    ).with_hint("check `systemctl --user status <unit>`, then run `viv stop` if the VM is gone".to_owned())
}

fn foreign(rt: &Runtime, why: &str) -> (f: Failure)
    ensures
        is_foreign(f, *rt, why@),
{
    let mut text = String::new();
    text.append(why);
    text.append(", so reusing it would attach a session to the wrong VM, and replacing it would tear down a VM this invocation does not own");
    diagnosed(
        Namespace::Vm,
        "foreign-boot-record",
        "this target's runtime directory holds a boot record for another VM".to_owned(),
        Locus::File(rt.boot_json()),
        text,
        ExitKind::Unavailable,
    ).with_hint("run `viv stop` for the project that owns it, or remove the stale record".to_owned())
}

fn unreachable(rt: &Runtime, why: String) -> (f: Failure)
    ensures
        is_unreachable(f, *rt, why@),
{
    diagnosed(
        Namespace::Vm,
        "agent-unreachable",
        "the VM is running but a session could not reach its guest agent".to_owned(),
        Locus::File(rt.control_socket()),
        why,
        ExitKind::Unavailable,
    ).with_hint("run `viv stop` and start again, or check `journalctl --user -u <unit>`".to_owned())
}

pub(crate) fn boot_record_skew(rt: &Runtime, theirs: u32, ours: u32) -> (f: Failure)
    ensures
        is_skew(f, *rt, theirs, ours),
{
    let mut why = String::new();
    why.append("the record carries launch schema ");
    push_decimal(&mut why, theirs as u64);
    why.append(" and this viv speaks ");
    push_decimal(&mut why, ours as u64);
    why.append(", so it cannot authorize a session against the running VM");
    diagnosed(
        Namespace::Vm,
        "boot-record-skew",
        "the VM's boot record was written by another vivarium version".to_owned(),
        Locus::File(rt.boot_json()),
        why,
        ExitKind::Config,
    ).with_hint("run `viv stop`, then `viv start`, so this version boots and records the VM".to_owned())
}

fn question_words(q: PresenceQuestion) -> (text: &'static str)
    ensures
        text@ == question_text(q),
{
    match q {
        PresenceQuestion::NoSocket => "its control socket is missing",
        PresenceQuestion::Skewed(_) => "its boot record was written by another vivarium version",
        PresenceQuestion::NoRecord => "its boot record cannot be read",
        PresenceQuestion::OtherWorkspaces => "it names another declared workspace set",
        PresenceQuestion::OtherBackend => "it names another backend",
        PresenceQuestion::Silent => "its guest agent did not answer a ping",
    }
}

fn ask(question: PresenceQuestion, boot: Option<BootMetadata>) -> (r: (ReusePhase, ReuseAction))
    ensures
        r.0 == (ReusePhase::Asking { question, kept: boot }),
        r.1 is AskPresence,
{
    (ReusePhase::Asking { question, kept: boot }, ReuseAction::AskPresence)
}

fn on_live(question: PresenceQuestion, boot: Option<BootMetadata>, c: &ReuseContext) -> (r: (ReusePhase, ReuseAction))
    requires
        question == PresenceQuestion::Silent ==> boot is Some,
    ensures
        live_action(question, boot, *c, r.0, r.1),
{
    match question {
        PresenceQuestion::NoSocket => (ReusePhase::Done, ReuseAction::Refuse(unreachable(
            &c.runtime,
            "the VM's own process is alive under its unit and its control socket is missing".to_owned(),
        ))),
        PresenceQuestion::Skewed(t) => (ReusePhase::Done, ReuseAction::Refuse(boot_record_skew(&c.runtime, t, c.schema))),
        PresenceQuestion::NoRecord => (ReusePhase::Done, ReuseAction::Refuse(unreachable(
            &c.runtime,
            "the VM's own process is alive under its unit and its boot record cannot be read, so no connection to it can be authorized".to_owned(),
        ))),
        PresenceQuestion::OtherWorkspaces => (ReusePhase::Done, ReuseAction::Refuse(foreign(&c.runtime, "it names another declared workspace set"))),
        PresenceQuestion::OtherBackend => (ReusePhase::Done, ReuseAction::Refuse(foreign(&c.runtime, "it names another backend"))),
        PresenceQuestion::Silent => match boot {
            Some(b) => (ReusePhase::Waiting { boot: b }, ReuseAction::Ping { patient: true }),
            None => {
                proof {
                    assert(false);
                }
                (ReusePhase::Done, ReuseAction::ColdStart)
            },
        },
    }
}

fn on_looked(socket_exists: bool, record: BootRecord, c: &ReuseContext) -> (r: (ReusePhase, ReuseAction))
    ensures
        reuse_next(ReusePhase::Start, ReuseEvent::Looked { socket_exists, record }, *c, r.0, r.1),
{
    if !socket_exists {
        return ask(PresenceQuestion::NoSocket, None);
    }
    match record {
        BootRecord::Skewed(t) => ask(PresenceQuestion::Skewed(t), None),
        BootRecord::Absent => ask(PresenceQuestion::NoRecord, None),
        BootRecord::Unreadable => ask(PresenceQuestion::NoRecord, None),
        BootRecord::Ready(b) => {
            if !same_text(b.sandbox_id.as_str(), c.sandbox_id.as_str()) || !same_text(b.target.as_str(), "default") {
                return (ReusePhase::Done, ReuseAction::Refuse(foreign(&c.runtime, "it names another sandbox or target")));
            }
            if !texts_equal(&b.workspace_paths, &c.workspace_paths) {
                return ask(PresenceQuestion::OtherWorkspaces, None);
            }
            if !same_text(b.backend.as_str(), c.backend.as_str()) {
                return ask(PresenceQuestion::OtherBackend, None);
            }
            (ReusePhase::Pinging { boot: b }, ReuseAction::Ping { patient: false })
        },
    }
}

/// One step of the reuse decision: from where it is and what the caller found, where it goes and
/// what the caller does next.
pub fn reuse_step(phase: ReusePhase, event: ReuseEvent, c: &ReuseContext) -> (r: (ReusePhase, ReuseAction))
    requires
        reuse_expects(phase, event),
    ensures
        reuse_next(phase, event, *c, r.0, r.1),
{
    match (phase, event) {
        (ReusePhase::Start, ReuseEvent::Looked { socket_exists, record }) => on_looked(socket_exists, record, c),
        (ReusePhase::Asking { question, kept: boot }, ReuseEvent::Presence(p)) => match p {
            Presence::Dead => match question {
                PresenceQuestion::NoSocket => (ReusePhase::Done, ReuseAction::ColdStart),
                _ => (ReusePhase::Done, ReuseAction::RepairThenColdStart),
            },
            Presence::Indeterminate => (ReusePhase::Done, ReuseAction::Refuse(undecided(&c.runtime, question_words(question)))),
            Presence::Live => on_live(question, boot, c),
        },
        (ReusePhase::Pinging { boot }, ReuseEvent::Pinged(ok)) => {
            if ok {
                (ReusePhase::Done, ReuseAction::Reuse(boot))
            } else {
                ask(PresenceQuestion::Silent, Some(boot))
            }
        },
        (ReusePhase::Waiting { boot }, ReuseEvent::Pinged(ok)) => {
            if ok {
                (ReusePhase::Done, ReuseAction::Reuse(boot))
            } else {
                let mut why = String::new();
                why.append("the control socket did not complete a handshake within ");
                push_decimal(&mut why, c.agent_timeout_seconds);
                why.append("s, and the VM's own process is still alive under its unit");
                (ReusePhase::Done, ReuseAction::Refuse(unreachable(&c.runtime, why)))
            }
        },
        _ => {
            proof {
                assert(false);
            }
            (ReusePhase::Done, ReuseAction::ColdStart)
        },
    }
}

/// What a cold start's launch left behind decides the boot a session is authorized against:
/// this version's record, or else a failure, since a launch that left no usable record produced
/// an unusable boot.
pub fn launched_boot(rt: &Runtime, record: BootRecord, ours: u32) -> (r: Result<BootMetadata, Failure>)
    ensures
        match record {
            BootRecord::Ready(b) => r == Ok::<BootMetadata, Failure>(b),
            BootRecord::Skewed(theirs) => r matches Err(f) && is_skew(f, *rt, theirs, ours),
            _ => r matches Err(f) && f matches Failure::Diagnosed { diagnostic: d, code } && code == ExitKind::Unavailable
                && d.namespace == Namespace::Vm && d.id@ == "boot-record-unreadable"@
                && d.what@ == "the VM started but left no readable boot record"@
                && (match d.locus {
                    Locus::File(path) => path@ == join(rt.directory@, "boot.json"@),
                    Locus::Named(_) => false,
                })
                && d.why@ == "a session is authorized by comparing the agent's answer against this record"@
                && d.hint is None,
        },
{
    match record {
        BootRecord::Ready(b) => Ok(b),
        BootRecord::Skewed(theirs) => Err(boot_record_skew(rt, theirs, ours)),
        _ => Err(diagnosed(
            Namespace::Vm,
            "boot-record-unreadable",
            "the VM started but left no readable boot record".to_owned(),
            Locus::File(rt.boot_json()),
            "a session is authorized by comparing the agent's answer against this record".to_owned(),
            ExitKind::Unavailable,
        )),
    }
}

} // verus!
