//! `viv memory trim`'s rung as decisions: resolve, lock, require a running VM and its boot
//! record, measure the scope charge, decide the target, inflate the balloon, wait for the charge
//! to settle, deflate, and measure again. Every run that inflated deflates before it finishes.
use vstd::prelude::*;
use crate::exit::ExitKind;
use crate::failure::{diagnosed, Failure, Locus, Namespace};
use crate::lifecycle::{Runtime, State};
use crate::paths::join;
use crate::reuse::{boot_record_skew, is_skew, BootMetadata, BootRecord};
use crate::text::{dec, lossy, lossy_text, push_decimal, texts, trim, trim_spec};
use crate::trim::{
    charge_unreadable, control_failed, control_failure, measured_charge, not_running_failure, require_running, settled, settled_spec, target_mib, target_spec,
    ControlCallError, MemoryTrimReading, TargetChoice,
};

verus! {

/// The refusal of a running VM whose boot record cannot be read.
pub open spec fn boot_unreadable(f: Failure, rt: Runtime) -> bool {
    f matches Failure::Diagnosed { diagnostic: d, code } && code == ExitKind::IoErr
        && d.namespace == Namespace::Vm && d.id@ == "boot-record-unreadable"@
        && d.what@ == "the running VM's boot record cannot be read"@
        && (match d.locus {
            Locus::File(path) => path@ == join(rt.directory@, "boot.json"@),
            Locus::Named(_) => false,
        })
        && d.why@ == "without it no call against the running guest can be authorized"@ && d.hint is None
}

/// The boot a reclaim call authorizes against: this version's record, or the refusal reading it
/// earns.
pub fn live_boot(rt: &Runtime, record: BootRecord, ours: u32) -> (r: Result<BootMetadata, Failure>)
    ensures
        match record {
            BootRecord::Ready(b) => r == Ok::<BootMetadata, Failure>(b),
            BootRecord::Skewed(theirs) => r matches Err(f) && is_skew(f, *rt, theirs, ours),
            _ => r matches Err(f) && boot_unreadable(f, *rt),
        },
{
    match record {
        BootRecord::Ready(b) => Ok(b),
        BootRecord::Skewed(theirs) => Err(boot_record_skew(rt, theirs, ours)),
        _ => Err(diagnosed(
            Namespace::Vm,
            "boot-record-unreadable",
            "the running VM's boot record cannot be read".to_owned(),
            Locus::File(rt.boot_json()),
            "without it no call against the running guest can be authorized".to_owned(),
            ExitKind::IoErr,
        )),
    }
}

/// Where the rung is.
pub enum ReclaimPhase {
    Resolving,
    Locking { sandbox: String },
    Checking { sandbox: String },
    ReadingBoot { sandbox: String },
    MeasuringBefore { sandbox: String },
    ReadingSpec { sandbox: String, before: u64 },
    AskingGuest { sandbox: String, before: u64, declared_mib: u64 },
    Inflating { sandbox: String, before: u64, target_mib: u64 },
    /// Waiting, bounded, for the charge to stop moving; `last` is the previous poll's reading.
    Settling { sandbox: String, before: u64, target_mib: u64, last: Option<u64> },
    Deflating { sandbox: String, before: u64, target_mib: u64 },
    MeasuringAfter { sandbox: String, before: u64, target_mib: u64 },
    Done,
}

/// What the last action found.
pub enum ReclaimEvent {
    Resolved { sandbox: String },
    /// The lock was taken, or a resize succeeded.
    Passed,
    State(State),
    Boot(BootRecord),
    /// A scope-charge reading, when one could be read.
    Charge(Option<u64>),
    /// The ceiling the running boot was launched with.
    Spec { declared_mib: u64 },
    /// The guest's memory report: total and available bytes.
    Report(Result<(u64, u64), ControlCallError>),
    /// A settle poll's reading; `None` ends the wait.
    Poll(Option<u64>),
    /// The settle deadline passed.
    Deadline,
    Failed(Failure),
}

/// What to do next.
pub enum ReclaimAction {
    Resolve,
    Lock { sandbox: String },
    ReadState,
    ReadBoot,
    /// Read the scope charge, after saying `warning` if there is one.
    ReadCharge { warning: Option<String> },
    ReadSpec,
    AskMemory,
    /// Resize the balloon to this many MiB, after saying `warning` if there is one.
    Resize { balloon_mib: u64, warning: Option<String> },
    /// Wait one poll interval, then read the charge.
    SleepThenPoll,
    Finish(Result<(String, MemoryTrimReading), Failure>),
}

/// Whether `event` answers what `phase` waits on.
pub open spec fn reclaim_expects(phase: ReclaimPhase, event: ReclaimEvent) -> bool {
    match (phase, event) {
        (ReclaimPhase::Done, _) => false,
        (ReclaimPhase::Settling { .. }, ReclaimEvent::Poll(_)) | (ReclaimPhase::Settling { .. }, ReclaimEvent::Deadline) => true,
        (ReclaimPhase::Settling { .. }, _) => false,
        (_, ReclaimEvent::Failed(_)) => true,
        (ReclaimPhase::Resolving, ReclaimEvent::Resolved { .. }) => true,
        (ReclaimPhase::Locking { .. }, ReclaimEvent::Passed) => true,
        (ReclaimPhase::Checking { .. }, ReclaimEvent::State(_)) => true,
        (ReclaimPhase::ReadingBoot { .. }, ReclaimEvent::Boot(_)) => true,
        (ReclaimPhase::MeasuringBefore { .. }, ReclaimEvent::Charge(_)) => true,
        (ReclaimPhase::ReadingSpec { .. }, ReclaimEvent::Spec { .. }) => true,
        (ReclaimPhase::AskingGuest { .. }, ReclaimEvent::Report(_)) => true,
        (ReclaimPhase::Inflating { .. }, ReclaimEvent::Passed) => true,
        (ReclaimPhase::Deflating { .. }, ReclaimEvent::Passed) => true,
        (ReclaimPhase::MeasuringAfter { .. }, ReclaimEvent::Charge(_)) => true,
        _ => false,
    }
}

/// The warning for an explicit target raised to the guest's floor.
pub open spec fn raise_text(from: u64, to: u64) -> Seq<char> {
    "raising the target from "@ + dec(from as nat) + " MiB to the guest's own floor of "@ + dec(to as nat) + " MiB"@
}

/// The balloon that brings the guest from its ceiling down to the target.
pub open spec fn balloon_spec(declared_mib: u64, target: u64) -> u64 {
    if declared_mib > target {
        (declared_mib - target) as u64
    } else {
        0
    }
}

/// Once the target is decided: inflate when there is a balloon to inflate, and otherwise measure.
pub open spec fn after_target(sandbox: String, before: u64, declared_mib: u64, target: u64, warning: Option<Seq<char>>, next: ReclaimPhase, action: ReclaimAction) -> bool {
    let w = match action {
        ReclaimAction::Resize { warning, .. } => warning,
        ReclaimAction::ReadCharge { warning } => warning,
        _ => None,
    };
    &&& match (w, warning) {
        (Some(a), Some(b)) => a@ == b,
        (None, None) => true,
        _ => false,
    }
    &&& if balloon_spec(declared_mib, target) > 0 {
        action matches ReclaimAction::Resize { balloon_mib, .. } && balloon_mib == balloon_spec(declared_mib, target)
            && next == (ReclaimPhase::Inflating { sandbox, before, target_mib: target })
    } else {
        action is ReadCharge && next == (ReclaimPhase::MeasuringAfter { sandbox, before, target_mib: target })
    }
}

/// The deflate every inflated run performs.
pub open spec fn deflates(sandbox: String, before: u64, target: u64, next: ReclaimPhase, action: ReclaimAction) -> bool {
    action == (ReclaimAction::Resize { balloon_mib: 0, warning: None })
        && next == (ReclaimPhase::Deflating { sandbox, before, target_mib: target })
}

/// One step of the memory rung.
pub open spec fn reclaim_next(to_mib: Option<u64>, ours: u32, rt: Runtime, phase: ReclaimPhase, event: ReclaimEvent, next: ReclaimPhase, action: ReclaimAction) -> bool {
    match (phase, event) {
        (ReclaimPhase::Settling { sandbox, before, target_mib, last }, ReclaimEvent::Poll(reading)) => match reading {
            None => deflates(sandbox, before, target_mib, next, action),
            Some(now) => if settled_spec(before, last, now) {
                deflates(sandbox, before, target_mib, next, action)
            } else {
                action == ReclaimAction::SleepThenPoll
                    && next == (ReclaimPhase::Settling { sandbox, before, target_mib, last: Some(now) })
            },
        },
        (ReclaimPhase::Settling { sandbox, before, target_mib, .. }, ReclaimEvent::Deadline) =>
            deflates(sandbox, before, target_mib, next, action),
        (_, ReclaimEvent::Failed(f)) => action == ReclaimAction::Finish(Err(f)) && next == ReclaimPhase::Done,
        (ReclaimPhase::Resolving, ReclaimEvent::Resolved { sandbox }) =>
            action == (ReclaimAction::Lock { sandbox }) && next == (ReclaimPhase::Locking { sandbox }),
        (ReclaimPhase::Locking { sandbox }, ReclaimEvent::Passed) =>
            action == ReclaimAction::ReadState && next == (ReclaimPhase::Checking { sandbox }),
        (ReclaimPhase::Checking { sandbox }, ReclaimEvent::State(state)) => if state == State::Running {
            action == ReclaimAction::ReadBoot && next == (ReclaimPhase::ReadingBoot { sandbox })
        } else {
            action matches ReclaimAction::Finish(Err(f)) && not_running_failure(f) && next == ReclaimPhase::Done
        },
        (ReclaimPhase::ReadingBoot { sandbox }, ReclaimEvent::Boot(record)) => match record {
            BootRecord::Ready(_) => action == (ReclaimAction::ReadCharge { warning: None })
                && next == (ReclaimPhase::MeasuringBefore { sandbox }),
            BootRecord::Skewed(theirs) => action matches ReclaimAction::Finish(Err(f))
                && is_skew(f, rt, theirs, ours) && next == ReclaimPhase::Done,
            _ => action matches ReclaimAction::Finish(Err(f)) && boot_unreadable(f, rt) && next == ReclaimPhase::Done,
        },
        (ReclaimPhase::MeasuringBefore { sandbox }, ReclaimEvent::Charge(reading)) => match reading {
            Some(before) => action == ReclaimAction::ReadSpec && next == (ReclaimPhase::ReadingSpec { sandbox, before }),
            None => action matches ReclaimAction::Finish(Err(f)) && charge_unreadable(f) && next == ReclaimPhase::Done,
        },
        (ReclaimPhase::ReadingSpec { sandbox, before }, ReclaimEvent::Spec { declared_mib }) =>
            action == ReclaimAction::AskMemory && next == (ReclaimPhase::AskingGuest { sandbox, before, declared_mib }),
        (ReclaimPhase::AskingGuest { sandbox, before, declared_mib }, ReclaimEvent::Report(report)) => {
            let figures = match report {
                Ok(p) => Some(p),
                Err(_) => None,
            };
            match target_spec(to_mib, figures, declared_mib) {
                TargetChoice::Use(t) => after_target(sandbox, before, declared_mib, t, None, next, action),
                TargetChoice::Raise { from, to } => after_target(sandbox, before, declared_mib, to, Some(raise_text(from, to)), next, action),
                TargetChoice::NeedReport => next == ReclaimPhase::Done && match report {
                    Err(e) => action matches ReclaimAction::Finish(Err(f)) && control_failed(f, e, "memory"@),
                    Ok(_) => false,
                },
            }
        },
        (ReclaimPhase::Inflating { sandbox, before, target_mib }, ReclaimEvent::Passed) =>
            action == ReclaimAction::SleepThenPoll && next == (ReclaimPhase::Settling { sandbox, before, target_mib, last: None }),
        (ReclaimPhase::Deflating { sandbox, before, target_mib }, ReclaimEvent::Passed) =>
            action == (ReclaimAction::ReadCharge { warning: None }) && next == (ReclaimPhase::MeasuringAfter { sandbox, before, target_mib }),
        (ReclaimPhase::MeasuringAfter { sandbox, before, target_mib }, ReclaimEvent::Charge(reading)) => next == ReclaimPhase::Done
            && match reading {
            Some(after) => action == ReclaimAction::Finish(Ok((sandbox, MemoryTrimReading { target_mib, before, after }))),
            None => action matches ReclaimAction::Finish(Err(f)) && charge_unreadable(f),
        },
        _ => false,
    }
}

/// Where the rung begins.
pub fn reclaim_begin() -> (r: (ReclaimPhase, ReclaimAction))
    ensures
        r.0 == ReclaimPhase::Resolving && r.1 == ReclaimAction::Resolve,
{
    (ReclaimPhase::Resolving, ReclaimAction::Resolve)
}

fn raise_warning(from: u64, to: u64) -> (w: String)
    ensures
        w@ == raise_text(from, to),
{
    let mut w = String::new();
    w.append("raising the target from ");
    push_decimal(&mut w, from);
    w.append(" MiB to the guest's own floor of ");
    push_decimal(&mut w, to);
    w.append(" MiB");
    w
}

fn target_reached(sandbox: String, before: u64, declared_mib: u64, target: u64, warning: Option<String>) -> (r: (ReclaimPhase, ReclaimAction))
    ensures
        after_target(sandbox, before, declared_mib, target, match warning {
            Some(w) => Some(w@),
            None => None,
        }, r.0, r.1),
{
    let balloon_mib = if declared_mib > target {
        declared_mib - target
    } else {
        0
    };
    if balloon_mib > 0 {
        (ReclaimPhase::Inflating { sandbox, before, target_mib: target }, ReclaimAction::Resize { balloon_mib, warning })
    } else {
        (ReclaimPhase::MeasuringAfter { sandbox, before, target_mib: target }, ReclaimAction::ReadCharge { warning })
    }
}

/// One step of the memory rung. `to_mib` is the operator's `--to`, `ours` the launch schema this
/// binary speaks, and `rt` the target's runtime location.
pub fn reclaim_step(to_mib: Option<u64>, ours: u32, rt: &Runtime, phase: ReclaimPhase, event: ReclaimEvent) -> (r: (ReclaimPhase, ReclaimAction))
    requires
        reclaim_expects(phase, event),
    ensures
        reclaim_next(to_mib, ours, *rt, phase, event, r.0, r.1),
{
    match (phase, event) {
        (ReclaimPhase::Settling { sandbox, before, target_mib, last }, ReclaimEvent::Poll(reading)) => match reading {
            None => (ReclaimPhase::Deflating { sandbox, before, target_mib }, ReclaimAction::Resize { balloon_mib: 0, warning: None }),
            Some(now) => {
                if settled(before, last, now) {
                    (ReclaimPhase::Deflating { sandbox, before, target_mib }, ReclaimAction::Resize { balloon_mib: 0, warning: None })
                } else {
                    (ReclaimPhase::Settling { sandbox, before, target_mib, last: Some(now) }, ReclaimAction::SleepThenPoll)
                }
            },
        },
        (ReclaimPhase::Settling { sandbox, before, target_mib, .. }, ReclaimEvent::Deadline) =>
            (ReclaimPhase::Deflating { sandbox, before, target_mib }, ReclaimAction::Resize { balloon_mib: 0, warning: None }),
        (_, ReclaimEvent::Failed(f)) => (ReclaimPhase::Done, ReclaimAction::Finish(Err(f))),
        (ReclaimPhase::Resolving, ReclaimEvent::Resolved { sandbox }) => {
            let name = sandbox.clone();
            (ReclaimPhase::Locking { sandbox }, ReclaimAction::Lock { sandbox: name })
        },
        (ReclaimPhase::Locking { sandbox }, ReclaimEvent::Passed) => (ReclaimPhase::Checking { sandbox }, ReclaimAction::ReadState),
        (ReclaimPhase::Checking { sandbox }, ReclaimEvent::State(state)) => match require_running(state) {
            Ok(()) => (ReclaimPhase::ReadingBoot { sandbox }, ReclaimAction::ReadBoot),
            Err(f) => (ReclaimPhase::Done, ReclaimAction::Finish(Err(f))),
        },
        (ReclaimPhase::ReadingBoot { sandbox }, ReclaimEvent::Boot(record)) => match live_boot(rt, record, ours) {
            Ok(_) => (ReclaimPhase::MeasuringBefore { sandbox }, ReclaimAction::ReadCharge { warning: None }),
            Err(f) => (ReclaimPhase::Done, ReclaimAction::Finish(Err(f))),
        },
        (ReclaimPhase::MeasuringBefore { sandbox }, ReclaimEvent::Charge(reading)) => match measured_charge(reading) {
            Ok(before) => (ReclaimPhase::ReadingSpec { sandbox, before }, ReclaimAction::ReadSpec),
            Err(f) => (ReclaimPhase::Done, ReclaimAction::Finish(Err(f))),
        },
        (ReclaimPhase::ReadingSpec { sandbox, before }, ReclaimEvent::Spec { declared_mib }) =>
            (ReclaimPhase::AskingGuest { sandbox, before, declared_mib }, ReclaimAction::AskMemory),
        (ReclaimPhase::AskingGuest { sandbox, before, declared_mib }, ReclaimEvent::Report(report)) => {
            let figures = match report {
                Ok(p) => Some(p),
                Err(_) => None,
            };
            match target_mib(to_mib, figures, declared_mib) {
                TargetChoice::Use(t) => target_reached(sandbox, before, declared_mib, t, None),
                TargetChoice::Raise { from, to } => target_reached(sandbox, before, declared_mib, to, Some(raise_warning(from, to))),
                TargetChoice::NeedReport => match report {
                    Err(e) => (ReclaimPhase::Done, ReclaimAction::Finish(Err(control_failure(e, "memory")))),
                    Ok(_) => {
                        proof {
                            assert(false);
                        }
                        (ReclaimPhase::Done, ReclaimAction::Resolve)
                    },
                },
            }
        },
        (ReclaimPhase::Inflating { sandbox, before, target_mib }, ReclaimEvent::Passed) =>
            (ReclaimPhase::Settling { sandbox, before, target_mib, last: None }, ReclaimAction::SleepThenPoll),
        (ReclaimPhase::Deflating { sandbox, before, target_mib }, ReclaimEvent::Passed) =>
            (ReclaimPhase::MeasuringAfter { sandbox, before, target_mib }, ReclaimAction::ReadCharge { warning: None }),
        (ReclaimPhase::MeasuringAfter { sandbox, before, target_mib }, ReclaimEvent::Charge(reading)) => match measured_charge(reading) {
            Ok(after) => (ReclaimPhase::Done, ReclaimAction::Finish(Ok((sandbox, MemoryTrimReading { target_mib, before, after })))),
            Err(f) => (ReclaimPhase::Done, ReclaimAction::Finish(Err(f))),
        },
        _ => {
            proof {
                assert(false);
            }
            (ReclaimPhase::Done, ReclaimAction::Resolve)
        },
    }
}

/// Once the balloon is inflated, no answer the host gives finishes the rung before the balloon
/// is deflated: the settle wait only polls again or deflates, and a failure cannot arrive there.
pub proof fn law_an_inflated_balloon_is_deflated(to_mib: Option<u64>, ours: u32, rt: Runtime, phase: ReclaimPhase, event: ReclaimEvent, next: ReclaimPhase, action: ReclaimAction)
    requires
        phase is Inflating || phase is Settling,
        reclaim_expects(phase, event),
        reclaim_next(to_mib, ours, rt, phase, event, next, action),
    ensures
        next is Settling || next is Deflating || (phase is Inflating && next is Done),
        next is Deflating ==> action == (ReclaimAction::Resize { balloon_mib: 0, warning: None }),
        phase is Settling ==> !(action is Finish),
{
}

/// The balloon resize's arguments to the pinned `ch-remote`.
pub open spec fn balloon_arguments_spec(api_socket: Seq<char>, balloon_mib: u64) -> Seq<Seq<char>> {
    seq!["--api-socket"@, api_socket, "resize"@, "--balloon"@, dec(balloon_mib as nat) + "M"@]
}

pub fn balloon_arguments(api_socket: &str, balloon_mib: u64) -> (args: Vec<String>)
    ensures
        texts(args@) == balloon_arguments_spec(api_socket@, balloon_mib),
{
    let mut size = String::new();
    push_decimal(&mut size, balloon_mib);
    size.append("M");
    let mut args: Vec<String> = Vec::new();
    args.push("--api-socket".to_owned());
    args.push(api_socket.to_owned());
    args.push("resize".to_owned());
    args.push("--balloon".to_owned());
    args.push(size);
    assert(texts(args@) =~= balloon_arguments_spec(api_socket@, balloon_mib));
    args
}

/// What one balloon resize came to.
pub enum ResizeResult {
    /// The backend's API socket is not there.
    SocketGone,
    /// `ch-remote` could not be run; the host's report.
    SpawnFailed(String),
    /// It ran: whether it succeeded, and what it wrote on stderr.
    Ran { success: bool, stderr: Vec<u8> },
}

/// A resize's failure at a file, with these parts and no hint.
pub open spec fn resize_failed(f: Failure, id: Seq<char>, what: Seq<char>, file: Seq<char>, why: Seq<char>, code: ExitKind) -> bool {
    f matches Failure::Diagnosed { diagnostic: d, code: c } && c == code && d.namespace == Namespace::Vm && d.id@ == id
        && d.what@ == what && d.why@ == why && d.hint is None && match d.locus {
        Locus::File(p) => p@ == file,
        Locus::Named(_) => false,
    }
}

/// What a resize costs: a missing socket and a refused resize are the backend being unaskable; a
/// `ch-remote` that cannot run at all is host I/O.
pub fn resize_outcome(ch_remote: &str, api_socket: &str, result: ResizeResult) -> (r: Result<(), Failure>)
    ensures
        match result {
            ResizeResult::SocketGone => r matches Err(f) && resize_failed(f, "api-socket-unavailable"@,
                "the backend's API socket is gone"@, api_socket@,
                "the balloon is driven over the backend's API socket, and the running VM's runtime directory no longer holds one"@,
                ExitKind::Unavailable),
            ResizeResult::SpawnFailed(e) => r matches Err(f) && resize_failed(f, "balloon-resize-failed"@,
                "could not run the pinned `ch-remote`"@, ch_remote@, e@, ExitKind::IoErr),
            ResizeResult::Ran { success, stderr } => if success {
                r is Ok
            } else {
                r matches Err(f) && resize_failed(f, "balloon-resize-refused"@, "the backend refused the balloon resize"@,
                    api_socket@, trim_spec(lossy_text(stderr@)), ExitKind::Unavailable)
            },
        },
{
    match result {
        ResizeResult::SocketGone => Err(diagnosed(
            Namespace::Vm,
            "api-socket-unavailable",
            "the backend's API socket is gone".to_owned(),
            Locus::File(api_socket.to_owned()),
            "the balloon is driven over the backend's API socket, and the running VM's runtime directory no longer holds one".to_owned(),
            ExitKind::Unavailable,
        )),
        ResizeResult::SpawnFailed(e) => Err(diagnosed(
            Namespace::Vm,
            "balloon-resize-failed",
            "could not run the pinned `ch-remote`".to_owned(),
            Locus::File(ch_remote.to_owned()),
            e,
            ExitKind::IoErr,
        )),
        ResizeResult::Ran { success, stderr } => {
            if success {
                Ok(())
            } else {
                let text = lossy(stderr.as_slice());
                Err(diagnosed(
                    Namespace::Vm,
                    "balloon-resize-refused",
                    "the backend refused the balloon resize".to_owned(),
                    Locus::File(api_socket.to_owned()),
                    trim(text.as_str()).to_owned(),
                    ExitKind::Unavailable,
                ))
            }
        },
    }
}

} // verus!
