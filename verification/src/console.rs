//! `viv start --attach`'s console stream: following the supervisor's capture file across its
//! rotation, deciding when the stream has ended, and what the attached form exits with.
use vstd::prelude::*;
use crate::exit::ExitKind;
use crate::failure::{diagnosed, Failure, Locus, Namespace};
use crate::lifecycle::State;
use crate::stop::plain_diagnostic;

verus! {

/// Quiet polls, after the VM left its running states, before the end of the capture is stable.
pub const STABLE_EOF_POLLS: u32 = 3;

/// A file's device and inode: what a rotation changes.
#[derive(Clone, Copy, Debug, PartialEq, Eq, Structural)]
pub struct Identity {
    pub device: u64,
    pub inode: u64,
}

/// Where one poll of the capture is. `forwarded` counts the bytes passed on so far.
#[derive(Clone, Copy, Debug, PartialEq, Eq, Structural)]
pub enum FollowPhase {
    /// No generation of the capture is open.
    Closed { forwarded: u64 },
    /// Reading the open generation to its end.
    Reading { identity: Identity, forwarded: u64 },
    /// At the end of the open generation: is the path still that file?
    Checking { identity: Identity, forwarded: u64 },
}

/// What the capture answered.
pub enum FollowEvent {
    /// The path was opened; the open file's identity.
    Opened { identity: Identity },
    /// There is no file at the path.
    Absent,
    /// A read returned this many bytes, and they were passed on; `0` is the end.
    Read(u64),
    /// The path's identity now, or `None` when it is gone.
    PathIs(Option<Identity>),
    /// An open, a read, a write to the sink, or an inspection failed; the host's report.
    Failed(String),
}

/// What the follower does next.
pub enum FollowAction {
    Open,
    Read,
    /// Inspect the path's identity.
    Inspect,
    /// The poll is over: the bytes it passed on, whether to flush the sink, and which generation
    /// stays open for the next poll.
    Finish { forwarded: u64, flush: bool, open: Option<Identity> },
    /// The poll failed.
    Fail(String),
}

/// Where a poll starts: reading the generation held open, or opening one.
pub open spec fn follow_start(open: Option<Identity>) -> (FollowPhase, FollowAction) {
    match open {
        Some(id) => (FollowPhase::Reading { identity: id, forwarded: 0 }, FollowAction::Read),
        None => (FollowPhase::Closed { forwarded: 0 }, FollowAction::Open),
    }
}

pub fn follow_begin(open: Option<Identity>) -> (r: (FollowPhase, FollowAction))
    ensures
        r == follow_start(open),
{
    match open {
        Some(id) => (FollowPhase::Reading { identity: id, forwarded: 0 }, FollowAction::Read),
        None => (FollowPhase::Closed { forwarded: 0 }, FollowAction::Open),
    }
}

/// Whether `event` can arrive in `phase`, and the count it adds stays in range.
pub open spec fn follow_expects(phase: FollowPhase, event: FollowEvent) -> bool {
    match (phase, event) {
        (_, FollowEvent::Failed(_)) => true,
        (FollowPhase::Closed { .. }, FollowEvent::Opened { .. }) | (FollowPhase::Closed { .. }, FollowEvent::Absent) => true,
        (FollowPhase::Reading { forwarded, .. }, FollowEvent::Read(n)) => forwarded + n <= u64::MAX,
        (FollowPhase::Checking { .. }, FollowEvent::PathIs(_)) => true,
        _ => false,
    }
}

/// A finished poll.
pub open spec fn finished(forwarded: u64, open: Option<Identity>) -> FollowAction {
    FollowAction::Finish { forwarded, flush: forwarded > 0, open }
}

/// One step of a poll: every byte appended since the last poll is passed on, a rotated
/// generation is drained and the new one opened, and a capture that is not there is quiet.
pub open spec fn follow_next(phase: FollowPhase, event: FollowEvent, next: FollowPhase, action: FollowAction) -> bool {
    match (phase, event) {
        (_, FollowEvent::Failed(e)) => match action {
            FollowAction::Fail(m) => m@ == e@,
            _ => false,
        },
        (FollowPhase::Closed { forwarded }, FollowEvent::Opened { identity }) =>
            next == (FollowPhase::Reading { identity, forwarded }) && action is Read,
        (FollowPhase::Closed { forwarded }, FollowEvent::Absent) => action == finished(forwarded, None),
        (FollowPhase::Reading { identity, forwarded }, FollowEvent::Read(n)) => if n > 0 {
            next == (FollowPhase::Reading { identity, forwarded: (forwarded + n) as u64 }) && action is Read
        } else {
            next == (FollowPhase::Checking { identity, forwarded }) && action is Inspect
        },
        (FollowPhase::Checking { identity, forwarded }, FollowEvent::PathIs(now)) => match now {
            Some(id) => if id == identity {
                action == finished(forwarded, Some(identity))
            } else {
                next == (FollowPhase::Closed { forwarded }) && action is Open
            },
            None => action == finished(forwarded, None),
        },
        _ => false,
    }
}

pub fn follow_step(phase: FollowPhase, event: FollowEvent) -> (r: (FollowPhase, FollowAction))
    requires
        follow_expects(phase, event),
    ensures
        follow_next(phase, event, r.0, r.1),
{
    match (phase, event) {
        (_, FollowEvent::Failed(e)) => (phase, FollowAction::Fail(e)),
        (FollowPhase::Closed { forwarded }, FollowEvent::Opened { identity }) =>
            (FollowPhase::Reading { identity, forwarded }, FollowAction::Read),
        (FollowPhase::Closed { forwarded }, FollowEvent::Absent) =>
            (phase, FollowAction::Finish { forwarded, flush: forwarded > 0, open: None }),
        (FollowPhase::Reading { identity, forwarded }, FollowEvent::Read(n)) => {
            if n > 0 {
                (FollowPhase::Reading { identity, forwarded: forwarded + n }, FollowAction::Read)
            } else {
                (FollowPhase::Checking { identity, forwarded }, FollowAction::Inspect)
            }
        },
        (FollowPhase::Checking { identity, forwarded }, FollowEvent::PathIs(now)) => match now {
            Some(id) => {
                if id.device == identity.device && id.inode == identity.inode {
                    (phase, FollowAction::Finish { forwarded, flush: forwarded > 0, open: Some(identity) })
                } else {
                    (FollowPhase::Closed { forwarded }, FollowAction::Open)
                }
            },
            None => (phase, FollowAction::Finish { forwarded, flush: forwarded > 0, open: None }),
        },
        _ => {
            proof {
                assert(false);
            }
            (phase, FollowAction::Open)
        },
    }
}

/// What the stream does after one poll.
#[derive(Clone, Copy, Debug, PartialEq, Eq, Structural)]
pub enum StreamDecision {
    /// Wait the poll interval, or a detach, and poll again.
    Continue,
    /// Drain one last time and end: the VM left its running states and the capture stayed quiet.
    DrainAndEnd,
}

/// Whether the VM is in a running state, or on its way in or out of one.
pub open spec fn running_or_moving(state: State) -> bool {
    state == State::Running || state == State::Starting || state == State::Stopping
}

/// The end detection after one poll that passed on `forwarded` bytes: only once the boot has
/// concluded, only when the VM has left its running states, and only after a run of quiet polls.
/// `state` is the VM's state, read when the poll was quiet after the boot.
pub open spec fn quiet_next(quiet: u32, forwarded: u64, booted: bool, state: State) -> (u32, StreamDecision) {
    if forwarded > 0 {
        (0, StreamDecision::Continue)
    } else if !booted {
        (quiet, StreamDecision::Continue)
    } else if running_or_moving(state) {
        (0, StreamDecision::Continue)
    } else if quiet + 1 >= STABLE_EOF_POLLS {
        ((quiet + 1) as u32, StreamDecision::DrainAndEnd)
    } else {
        ((quiet + 1) as u32, StreamDecision::Continue)
    }
}

/// The stream never ends on a poll that forwarded bytes, before the boot concluded, or while the
/// VM is running or on its way in or out; and it ends only after a run of quiet polls.
pub proof fn law_the_stream_ends_only_quiet_and_stopped(quiet: u32, forwarded: u64, booted: bool, state: State)
    ensures
        quiet_next(quiet, forwarded, booted, state).1 == StreamDecision::DrainAndEnd ==> forwarded == 0 && booted
            && !running_or_moving(state) && quiet + 1 >= STABLE_EOF_POLLS,
{
}

pub fn after_poll(quiet: u32, forwarded: u64, booted: bool, state: State) -> (r: (u32, StreamDecision))
    requires
        quiet < STABLE_EOF_POLLS,
    ensures
        r == quiet_next(quiet, forwarded, booted, state),
        r.0 < STABLE_EOF_POLLS || r.1 == StreamDecision::DrainAndEnd,
{
    if forwarded > 0 {
        (0, StreamDecision::Continue)
    } else if !booted {
        (quiet, StreamDecision::Continue)
    } else if state == State::Running || state == State::Starting || state == State::Stopping {
        (0, StreamDecision::Continue)
    } else if quiet + 1 >= STABLE_EOF_POLLS {
        (quiet + 1, StreamDecision::DrainAndEnd)
    } else {
        (quiet + 1, StreamDecision::Continue)
    }
}

/// How the stream task finished.
pub enum StreamOutcome {
    /// The VM left its running states and the capture stayed quiet.
    Ended,
    /// The caller detached.
    Detached,
    /// Reading the capture or writing the terminal failed; whether the terminal's reader left.
    Io { broken_pipe: bool, error: String },
    /// The task itself ended abnormally.
    TaskFailed(String),
}

/// The attached form's exit for a finished stream: an end, a detach, or a reader that left is
/// success; a capture that could not be read is `74`; a task that died is `70`.
pub fn stream_exit(outcome: StreamOutcome) -> (r: Result<ExitKind, Failure>)
    ensures
        match outcome {
            StreamOutcome::Ended | StreamOutcome::Detached => r == Ok::<ExitKind, Failure>(ExitKind::Success),
            StreamOutcome::Io { broken_pipe, error } => if broken_pipe {
                r == Ok::<ExitKind, Failure>(ExitKind::Success)
            } else {
                r matches Err(f) && plain_diagnostic(f, Namespace::Vm, "console-stream"@, "the console stream could not be read"@,
                    "console capture"@, error@, ExitKind::IoErr)
            },
            StreamOutcome::TaskFailed(error) => r matches Err(f) && plain_diagnostic(f, Namespace::Internal,
                "console-stream-task"@, "the console stream task ended abnormally"@, "console capture"@, error@,
                ExitKind::Software),
        },
{
    match outcome {
        StreamOutcome::Ended | StreamOutcome::Detached => Ok(ExitKind::Success),
        StreamOutcome::Io { broken_pipe, error } => {
            if broken_pipe {
                Ok(ExitKind::Success)
            } else {
                Err(diagnosed(
                    Namespace::Vm,
                    "console-stream",
                    "the console stream could not be read".to_owned(),
                    Locus::Named("console capture".to_owned()),
                    error,
                    ExitKind::IoErr,
                ))
            }
        },
        StreamOutcome::TaskFailed(error) => Err(diagnosed(
            Namespace::Internal,
            "console-stream-task",
            "the console stream task ended abnormally".to_owned(),
            Locus::Named("console capture".to_owned()),
            error,
            ExitKind::Software,
        )),
    }
}

} // verus!
