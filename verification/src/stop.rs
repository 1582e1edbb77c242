//! The manager rungs of the stop ladder, as a machine: the caller runs each action against the
//! user service manager and hands back what it answered, and `stop_step` decides what comes next.
//!
//! The stop is issued without waiting, the unit is polled until it is gone or the grace runs
//! out, and then the whole group is killed and reaped for a bounded moment. A stop that cannot
//! be confirmed even after that reports the state the unit is still in. The agent-first ladder
//! above these rungs, and the post-condition a completed stop is held to, are here too.
use vstd::prelude::*;
use crate::exit::ExitKind;
use crate::failure::{diagnosed, Failure, Locus, Namespace};
use crate::lifecycle::{grace_seconds, grace_spec, same_text, StopRung};
use crate::text::{dec, lossy, lossy_text, push_decimal, texts, trim, trim_spec};

verus! {

/// How many times a killed unit is asked whether it is gone before the stop is reported
/// unconfirmed; each ask after the first follows a short sleep.
pub const REAP_POLLS: u32 = 50;

/// Where the manager rungs are.
#[derive(Clone, Copy, Debug, PartialEq, Eq, Structural)]
pub enum StopPhase {
    /// The stop request is in flight.
    Issuing,
    /// Waiting for the unit to go, under the grace.
    Polling,
    /// The kill request is in flight.
    Killing,
    /// Waiting for the killed group to be reaped; `left` asks remain.
    Reaping { left: u32 },
    /// Reading the state a stop that could not be confirmed is left in.
    Confirming,
    /// Nothing more to do.
    Finished,
}

/// What the manager answered.
pub enum StopEvent {
    /// `systemctl --user --no-block stop` could not be run at all; `error` is the host's report.
    IssueFailed { error: String },
    /// `systemctl --user --no-block stop` ran: whether it succeeded, and what it wrote to stderr.
    Issued { success: bool, stderr: Vec<u8> },
    /// `systemctl --user show -p ActiveState --value` ran (`stdout` is what it printed) or could
    /// not be run (`None`); `deadline_passed` is whether the grace had run out when it answered.
    UnitState { stdout: Option<Vec<u8>>, deadline_passed: bool },
    /// `systemctl --user kill --signal=SIGKILL` ran and succeeded, or did not.
    Killed { success: bool },
}

/// What the caller does next.
pub enum StopAction {
    /// Ask the manager for the unit's state now.
    ReadState,
    /// Wait a tenth of a second, then ask the manager for the unit's state.
    SleepThenReadState,
    /// Kill the unit's whole group.
    Kill,
    /// The stop is over: the rung that ended it, `None` when the unit was already gone, or why
    /// it could not be confirmed.
    Finish(Result<Option<StopRung>, Failure>),
}

/// The active state a `show` printed: trimmed, and absent when empty or when the manager could
/// not be asked.
pub open spec fn active_state(stdout: Option<Seq<u8>>) -> Option<Seq<char>> {
    match stdout {
        None => None,
        Some(b) => {
            let t = trim_spec(lossy_text(b));
            if t.len() == 0 {
                None
            } else {
                Some(t)
            }
        },
    }
}

/// A unit that is gone, or never loaded, or at rest: its lifetime is over and with it the VM's.
pub open spec fn unit_gone(state: Option<Seq<char>>) -> bool {
    match state {
        None => true,
        Some(s) => s == "inactive"@ || s == "failed"@,
    }
}

/// A unit at rest is a stopped VM. Whatever the grace, a reading of `inactive` or `failed`, or no
/// reading at all, while waiting for the unit ends the stop successfully: with the power signal
/// while the manager's stop is being waited on, with the hard poweroff once the group was killed.
/// It never kills such a unit, polls it again, or reports it unconfirmed.
pub proof fn law_a_unit_at_rest_is_stopped(unit: Seq<char>, stdout: Option<Vec<u8>>, deadline_passed: bool, left: u32, next: StopPhase, action: StopAction)
    requires
        ({
            let state = active_state(match stdout {
                Some(b) => Some(b@),
                None => None,
            });
            state is None || state == Some("inactive"@) || state == Some("failed"@)
        }),
    ensures
        stop_next(StopPhase::Polling, unit, StopEvent::UnitState { stdout, deadline_passed }, next, action)
            ==> next == StopPhase::Finished && action == StopAction::Finish(Ok(Some(StopRung::PowerSignal))),
        stop_next(StopPhase::Reaping { left }, unit, StopEvent::UnitState { stdout, deadline_passed }, next, action)
            ==> next == StopPhase::Finished && action == StopAction::Finish(Ok(Some(StopRung::HardPoweroff))),
{
}

/// Whether `needle` occurs in `hay`.
pub open spec fn contains_text(hay: Seq<char>, needle: Seq<char>) -> bool {
    exists|i: int| 0 <= i && i + needle.len() <= hay.len() && #[trigger] hay.subrange(i, i + needle.len()) == needle
}

/// Whether a failed stop request says the unit is already gone, which is the idempotent case.
pub open spec fn already_gone(stderr: Seq<u8>) -> bool {
    contains_text(lossy_text(stderr), "not loaded"@) || contains_text(lossy_text(stderr), "not found"@)
}

/// Whether `event` is one the manager can answer in `phase`.
pub open spec fn expects(phase: StopPhase, event: StopEvent) -> bool {
    match phase {
        StopPhase::Issuing => event is IssueFailed || event is Issued,
        StopPhase::Polling | StopPhase::Reaping { .. } | StopPhase::Confirming => event is UnitState,
        StopPhase::Killing => event is Killed,
        StopPhase::Finished => false,
    }
}

/// Whether `f` is a diagnosed failure with these parts and no remedy line.
pub open spec fn plain_diagnostic(f: Failure, namespace: Namespace, id: Seq<char>, what: Seq<char>, named: Seq<char>, why: Seq<char>, code: ExitKind) -> bool {
    match f {
        Failure::Diagnosed { diagnostic: d, code: c } => {
            &&& c == code
            &&& d.namespace == namespace
            &&& d.id@ == id
            &&& d.what@ == what
            &&& (match d.locus {
                Locus::Named(n) => n@ == named,
                Locus::File(_) => false,
            })
            &&& d.why@ == why
            &&& d.hint is None
        },
        Failure::Usage(_) => false,
    }
}

/// Whether `action` finishes with the rung `rung`.
pub open spec fn finishes_with(action: StopAction, rung: Option<StopRung>) -> bool {
    match action {
        StopAction::Finish(Ok(r)) => r == rung,
        _ => false,
    }
}

/// Whether `action` finishes with a failure meeting `p`.
pub open spec fn fails_as(action: StopAction, p: spec_fn(Failure) -> bool) -> bool {
    match action {
        StopAction::Finish(Err(f)) => p(f),
        _ => false,
    }
}

/// One step of the manager rungs.
pub open spec fn stop_next(phase: StopPhase, unit: Seq<char>, event: StopEvent, next: StopPhase, action: StopAction) -> bool {
    match (phase, event) {
        (StopPhase::Issuing, StopEvent::IssueFailed { error }) => next == StopPhase::Finished && fails_as(action,
            |f: Failure| plain_diagnostic(f, Namespace::Host, "systemctl-unavailable"@, "could not run `systemctl --user`"@,
                "user service manager"@, error@, ExitKind::Unavailable)),
        (StopPhase::Issuing, StopEvent::Issued { success, stderr }) => if success {
            next == StopPhase::Polling && action is ReadState
        } else if already_gone(stderr@) {
            next == StopPhase::Finished && finishes_with(action, None)
        } else {
            next == StopPhase::Finished && fails_as(action, |f: Failure| plain_diagnostic(f, Namespace::Vm, "stop-failed"@,
                "the VM could not be confirmed stopped"@, "guest teardown"@, trim_spec(lossy_text(stderr@)),
                ExitKind::Unavailable))
        },
        (StopPhase::Polling, StopEvent::UnitState { stdout, deadline_passed }) => {
            let state = active_state(match stdout {
                Some(b) => Some(b@),
                None => None,
            });
            if unit_gone(state) {
                next == StopPhase::Finished && finishes_with(action, Some(StopRung::PowerSignal))
            } else if deadline_passed {
                next == StopPhase::Killing && action is Kill
            } else {
                next == StopPhase::Polling && action is SleepThenReadState
            }
        },
        (StopPhase::Killing, StopEvent::Killed { success }) => if success {
            next == (StopPhase::Reaping { left: REAP_POLLS }) && action is ReadState
        } else {
            next == StopPhase::Confirming && action is ReadState
        },
        (StopPhase::Reaping { left }, StopEvent::UnitState { stdout, .. }) => {
            let state = active_state(match stdout {
                Some(b) => Some(b@),
                None => None,
            });
            if unit_gone(state) {
                next == StopPhase::Finished && finishes_with(action, Some(StopRung::HardPoweroff))
            } else if left > 1 {
                next == (StopPhase::Reaping { left: (left - 1) as u32 }) && action is SleepThenReadState
            } else {
                next == StopPhase::Confirming && action is SleepThenReadState
            }
        },
        (StopPhase::Confirming, StopEvent::UnitState { stdout, .. }) => {
            let state = active_state(match stdout {
                Some(b) => Some(b@),
                None => None,
            });
            next == StopPhase::Finished && fails_as(action, |f: Failure| plain_diagnostic(f, Namespace::Vm,
                "stop-unconfirmed"@, "the VM could not be confirmed stopped"@, "guest teardown"@,
                "`"@ + unit + "` is still "@ + (match state {
                    Some(s) => s,
                    None => "in an unknown state"@,
                }) + " after a hard poweroff"@, ExitKind::Unavailable))
        },
        _ => false,
    }
}

/// Whether `needle` occurs in `hay`.
pub fn contains(hay: &str, needle: &str) -> (found: bool)
    ensures
        found == contains_text(hay@, needle@),
{
    let n = hay.unicode_len();
    let m = needle.unicode_len();
    if m > n {
        return false;
    }
    if m == 0 {
        assert(hay@.subrange(0int, 0int + needle@.len()) =~= needle@);
        return true;
    }
    let mut i: usize = 0;
    while i <= n - m
        invariant
            0 < m <= n,
            n == hay@.len(),
            m == needle@.len(),
            forall|k: int| 0 <= k < i ==> #[trigger] hay@.subrange(k, k + m) != needle@,
        decreases n - m + 1 - i,
    {
        let window = hay.substring_char(i, i + m);
        if same_text(window, needle) {
            return true;
        }
        i = i + 1;
    }
    false
}

/// The unit's active state from what `show` printed.
pub fn active_state_of(stdout: &Option<Vec<u8>>) -> (state: Option<String>)
    ensures
        match state {
            Some(s) => active_state(match *stdout {
                Some(b) => Some(b@),
                None => None,
            }) == Some(s@),
            None => active_state(match *stdout {
                Some(b) => Some(b@),
                None => None,
            }) is None,
        },
{
    match stdout {
        None => None,
        Some(b) => {
            let text = lossy(b.as_slice());
            let t = trim(text.as_str());
            if t.unicode_len() == 0 {
                None
            } else {
                Some(t.to_owned())
            }
        },
    }
}

fn gone(state: &Option<String>) -> (g: bool)
    ensures
        g == unit_gone(match *state {
            Some(s) => Some(s@),
            None => None,
        }),
{
    match state {
        None => true,
        Some(s) => same_text(s.as_str(), "inactive") || same_text(s.as_str(), "failed"),
    }
}

/// One step of the manager rungs: from where the stop is and what the manager answered, where it
/// goes and what the caller does next.
pub fn stop_step(phase: StopPhase, unit: &str, event: StopEvent) -> (r: (StopPhase, StopAction))
    requires
        expects(phase, event),
    ensures
        stop_next(phase, unit@, event, r.0, r.1),
{
    match (phase, event) {
        (StopPhase::Issuing, StopEvent::IssueFailed { error }) => {
            let f = diagnosed(
                Namespace::Host,
                "systemctl-unavailable",
                "could not run `systemctl --user`".to_owned(),
                Locus::Named("user service manager".to_owned()),
                error,
                ExitKind::Unavailable,
            );
            (StopPhase::Finished, StopAction::Finish(Err(f)))
        },
        (StopPhase::Issuing, StopEvent::Issued { success, stderr }) => {
            if success {
                return (StopPhase::Polling, StopAction::ReadState);
            }
            let text = lossy(stderr.as_slice());
            if contains(text.as_str(), "not loaded") || contains(text.as_str(), "not found") {
                return (StopPhase::Finished, StopAction::Finish(Ok(None)));
            }
            let why = trim(text.as_str()).to_owned();
            let f = diagnosed(
                Namespace::Vm,
                "stop-failed",
                "the VM could not be confirmed stopped".to_owned(),
                Locus::Named("guest teardown".to_owned()),
                why,
                ExitKind::Unavailable,
            );
            (StopPhase::Finished, StopAction::Finish(Err(f)))
        },
        (StopPhase::Polling, StopEvent::UnitState { stdout, deadline_passed }) => {
            let state = active_state_of(&stdout);
            if gone(&state) {
                (StopPhase::Finished, StopAction::Finish(Ok(Some(StopRung::PowerSignal))))
            } else if deadline_passed {
                (StopPhase::Killing, StopAction::Kill)
            } else {
                (StopPhase::Polling, StopAction::SleepThenReadState)
            }
        },
        (StopPhase::Killing, StopEvent::Killed { success }) => {
            if success {
                (StopPhase::Reaping { left: REAP_POLLS }, StopAction::ReadState)
            } else {
                (StopPhase::Confirming, StopAction::ReadState)
            }
        },
        (StopPhase::Reaping { left }, StopEvent::UnitState { stdout, .. }) => {
            let state = active_state_of(&stdout);
            if gone(&state) {
                (StopPhase::Finished, StopAction::Finish(Ok(Some(StopRung::HardPoweroff))))
            } else if left > 1 {
                (StopPhase::Reaping { left: left - 1 }, StopAction::SleepThenReadState)
            } else {
                (StopPhase::Confirming, StopAction::SleepThenReadState)
            }
        },
        (StopPhase::Confirming, StopEvent::UnitState { stdout, .. }) => {
            let state = active_state_of(&stdout);
            let mut why = String::new();
            why.append("`");
            why.append(unit);
            why.append("` is still ");
            match &state {
                Some(s) => why.append(s.as_str()),
                None => why.append("in an unknown state"),
            }
            why.append(" after a hard poweroff");
            let f = diagnosed(
                Namespace::Vm,
                "stop-unconfirmed",
                "the VM could not be confirmed stopped".to_owned(),
                Locus::Named("guest teardown".to_owned()),
                why,
                ExitKind::Unavailable,
            );
            (StopPhase::Finished, StopAction::Finish(Err(f)))
        },
        _ => {
            proof {
                assert(false);
            }
            (StopPhase::Finished, StopAction::ReadState)
        },
    }
}

/// How long the agent is asked for an orderly shutdown, at most.
pub const SHUTDOWN_ASK_SECONDS: u64 = 2;

/// The grace the power path gets after an acknowledged shutdown wedges.
pub const POWER_SIGNAL_WINDOW_SECONDS: i64 = 10;

/// Where the whole stop ladder is.
pub enum LadderPhase {
    /// Nothing asked yet.
    Start,
    /// The agent is being asked for a guest shutdown.
    Asking,
    /// The agent acknowledged; waiting for the unit to go under the operator's grace.
    AgentPolling,
    /// The manager rungs; `after_ack` when the guest acknowledged a shutdown first.
    Manager { phase: StopPhase, after_ack: bool },
}

/// What the caller found.
pub enum LadderEvent {
    /// Whether the boot record is this version's own, which the ask is authorized against.
    Record { ready: bool },
    /// Whether the agent acknowledged the shutdown in time; an ask the remaining grace leaves no
    /// time for is no acknowledgement.
    Asked { acked: bool },
    /// What the service manager answered.
    Manager(StopEvent),
}

/// What the caller does next.
pub enum LadderAction {
    /// Ask the agent for a guest shutdown, for at most this many seconds and never past the grace.
    Ask { seconds: u64 },
    /// Ask the manager for the unit's state now.
    ReadState,
    /// Wait a tenth of a second, then ask the manager for the unit's state.
    SleepThenReadState,
    /// Issue the manager stop; `grace` seconds from now is the deadline, `None` waits indefinitely.
    IssueStop { grace: Option<u64> },
    /// Kill the unit's whole group.
    Kill,
    /// The stop is over.
    Finish(Result<Option<StopRung>, Failure>),
}

/// A manager-rung action, as the ladder passes it on: after an acknowledged shutdown, a unit
/// the manager finds already gone means the acknowledged shutdown finished after all.
pub open spec fn lifted(a: StopAction, after_ack: bool) -> LadderAction {
    match a {
        StopAction::ReadState => LadderAction::ReadState,
        StopAction::SleepThenReadState => LadderAction::SleepThenReadState,
        StopAction::Kill => LadderAction::Kill,
        StopAction::Finish(r) => LadderAction::Finish(match r {
            Ok(None) => if after_ack {
                Ok(Some(StopRung::Agent))
            } else {
                Ok(None)
            },
            other => other,
        }),
    }
}

/// Whether `event` can arrive in `phase`.
pub open spec fn ladder_expects(phase: LadderPhase, event: LadderEvent) -> bool {
    match phase {
        LadderPhase::Start => event is Record,
        LadderPhase::Asking => event is Asked,
        LadderPhase::AgentPolling => event matches LadderEvent::Manager(StopEvent::UnitState { .. }),
        LadderPhase::Manager { phase, .. } => match event {
            LadderEvent::Manager(e) => expects(phase, e),
            _ => false,
        },
    }
}

/// One step of the stop ladder for `unit`, stopped with `--force` when `force` and the
/// `--timeout` given.
pub open spec fn ladder_next(phase: LadderPhase, event: LadderEvent, force: bool, timeout: Option<i64>, unit: Seq<char>, next: LadderPhase, action: LadderAction) -> bool {
    match (phase, event) {
        (LadderPhase::Start, LadderEvent::Record { ready }) => if grace_spec(force, timeout) != Some(0u64) && ready {
            next is Asking && action == (LadderAction::Ask { seconds: SHUTDOWN_ASK_SECONDS })
        } else {
            next == (LadderPhase::Manager { phase: StopPhase::Issuing, after_ack: false })
                && action == (LadderAction::IssueStop { grace: grace_spec(force, timeout) })
        },
        (LadderPhase::Asking, LadderEvent::Asked { acked }) => if acked {
            next is AgentPolling && action is ReadState
        } else {
            next == (LadderPhase::Manager { phase: StopPhase::Issuing, after_ack: false })
                && action == (LadderAction::IssueStop { grace: grace_spec(force, timeout) })
        },
        (LadderPhase::AgentPolling, LadderEvent::Manager(StopEvent::UnitState { stdout, deadline_passed })) => {
            let state = active_state(match stdout {
                Some(b) => Some(b@),
                None => None,
            });
            if unit_gone(state) {
                next is AgentPolling && action == LadderAction::Finish(Ok(Some(StopRung::Agent)))
            } else if deadline_passed {
                next == (LadderPhase::Manager { phase: StopPhase::Issuing, after_ack: true })
                    && action == (LadderAction::IssueStop { grace: grace_spec(false, Some(POWER_SIGNAL_WINDOW_SECONDS)) })
            } else {
                next is AgentPolling && action is SleepThenReadState
            }
        },
        (LadderPhase::Manager { phase, after_ack }, LadderEvent::Manager(e)) => match next {
            LadderPhase::Manager { phase: p2, after_ack: a2 } => a2 == after_ack
                && exists|inner: StopAction| #[trigger] lifted(inner, after_ack) == action && stop_next(phase, unit, e, p2, inner),
            _ => false,
        },
        _ => false,
    }
}

/// One step of the whole stop ladder: the agent's orderly shutdown first, unless the operator
/// asked for now or the boot record cannot authorize the ask, then the manager rungs.
pub fn ladder_step(phase: LadderPhase, event: LadderEvent, force: bool, timeout: Option<i64>, unit: &str) -> (r: (LadderPhase, LadderAction))
    requires
        ladder_expects(phase, event),
    ensures
        ladder_next(phase, event, force, timeout, unit@, r.0, r.1),
{
    match (phase, event) {
        (LadderPhase::Start, LadderEvent::Record { ready }) => {
            let grace = grace_seconds(force, timeout);
            if grace != Some(0u64) && ready {
                (LadderPhase::Asking, LadderAction::Ask { seconds: SHUTDOWN_ASK_SECONDS })
            } else {
                (LadderPhase::Manager { phase: StopPhase::Issuing, after_ack: false }, LadderAction::IssueStop { grace })
            }
        },
        (LadderPhase::Asking, LadderEvent::Asked { acked }) => {
            if acked {
                (LadderPhase::AgentPolling, LadderAction::ReadState)
            } else {
                (
                    LadderPhase::Manager { phase: StopPhase::Issuing, after_ack: false },
                    LadderAction::IssueStop { grace: grace_seconds(force, timeout) },
                )
            }
        },
        (LadderPhase::AgentPolling, LadderEvent::Manager(StopEvent::UnitState { stdout, deadline_passed })) => {
            let state = active_state_of(&stdout);
            if gone(&state) {
                (LadderPhase::AgentPolling, LadderAction::Finish(Ok(Some(StopRung::Agent))))
            } else if deadline_passed {
                (
                    LadderPhase::Manager { phase: StopPhase::Issuing, after_ack: true },
                    LadderAction::IssueStop { grace: grace_seconds(false, Some(POWER_SIGNAL_WINDOW_SECONDS)) },
                )
            } else {
                (LadderPhase::AgentPolling, LadderAction::SleepThenReadState)
            }
        },
        (LadderPhase::Manager { phase, after_ack }, LadderEvent::Manager(e)) => {
            let (p2, inner) = stop_step(phase, unit, e);
            let ghost g = inner;
            let action = match inner {
                StopAction::ReadState => LadderAction::ReadState,
                StopAction::SleepThenReadState => LadderAction::SleepThenReadState,
                StopAction::Kill => LadderAction::Kill,
                StopAction::Finish(result) => LadderAction::Finish(match result {
                    Ok(None) => if after_ack {
                        Ok(Some(StopRung::Agent))
                    } else {
                        Ok(None)
                    },
                    other => other,
                }),
            };
            assert(lifted(g, after_ack) == action);
            (LadderPhase::Manager { phase: p2, after_ack }, action)
        },
        _ => {
            proof {
                assert(false);
            }
            (LadderPhase::Start, LadderAction::Kill)
        },
    }
}

/// What reading the runtime directory after a completed stop found.
pub enum TeardownReading {
    /// The directory is gone: the supervisor removed it.
    Gone,
    /// The names of its entries.
    Entries(Vec<String>),
    /// It could not be read; the host's report.
    Unreadable(String),
}

/// How many of `names` are not the startup lock.
pub open spec fn residue(names: Seq<Seq<char>>) -> nat
    decreases names.len(),
{
    if names.len() == 0 {
        0
    } else {
        residue(names.drop_last()) + if names.last() == "lock"@ {
            0nat
        } else {
            1nat
        }
    }
}

/// Whether `f` is a failure at the runtime directory with these parts and no hint.
pub open spec fn at_directory(f: Failure, id: Seq<char>, what: Seq<char>, directory: Seq<char>, why: Seq<char>) -> bool {
    f matches Failure::Diagnosed { diagnostic: d, code } && code == ExitKind::Unavailable && d.namespace == Namespace::Vm
        && d.id@ == id && d.what@ == what && d.why@ == why && d.hint is None && match d.locus {
        Locus::File(p) => p@ == directory,
        Locus::Named(_) => false,
    }
}

/// A stop's post-condition: the runtime directory is gone, or holds nothing but the startup lock,
/// which the sweep must leave in place; a directory that would not read establishes nothing.
pub fn confirm_teardown(directory: &str, reading: TeardownReading) -> (r: Result<(), Failure>)
    ensures
        match reading {
            TeardownReading::Gone => r is Ok,
            TeardownReading::Entries(names) => if residue(texts(names@)) == 0 {
                r is Ok
            } else {
                r matches Err(f) && at_directory(f, "teardown-incomplete"@,
                    "the runtime directory still holds entries after a completed stop"@, directory@,
                    dec(residue(texts(names@))) + " entries survived the allowlisted cleanup"@)
            },
            TeardownReading::Unreadable(e) => r matches Err(f) && at_directory(f, "teardown-unconfirmed"@,
                "the runtime directory could not be inspected after a completed stop"@, directory@, e@),
        },
{
    match reading {
        TeardownReading::Gone => Ok(()),
        TeardownReading::Unreadable(e) => Err(diagnosed(
            Namespace::Vm,
            "teardown-unconfirmed",
            "the runtime directory could not be inspected after a completed stop".to_owned(),
            Locus::File(directory.to_owned()),
            e,
            ExitKind::Unavailable,
        )),
        TeardownReading::Entries(names) => {
            let mut counted: u64 = 0;
            let mut i: usize = 0;
            while i < names.len()
                invariant
                    i <= names.len(),
                    counted == residue(texts(names@).subrange(0, i as int)),
                    counted <= i,
                decreases names.len() - i,
            {
                assert(texts(names@).subrange(0, i + 1).drop_last() =~= texts(names@).subrange(0, i as int));
                if !same_text(names[i].as_str(), "lock") {
                    counted = counted + 1;
                }
                i = i + 1;
            }
            assert(texts(names@).subrange(0, names@.len() as int) =~= texts(names@));
            if counted > 0 {
                let mut why = String::new();
                push_decimal(&mut why, counted);
                why.append(" entries survived the allowlisted cleanup");
                Err(diagnosed(
                    Namespace::Vm,
                    "teardown-incomplete",
                    "the runtime directory still holds entries after a completed stop".to_owned(),
                    Locus::File(directory.to_owned()),
                    why,
                    ExitKind::Unavailable,
                ))
            } else {
                Ok(())
            }
        },
    }
}

} // verus!
