//! Reclaim's arithmetic and decisions: the guest's working set, the headroom a derived target
//! leaves, what an explicit target is raised to, when a shrinking charge has settled, and the
//! sum of what the volumes gave back.
use vstd::prelude::*;
use crate::exit::ExitKind;
use crate::failure::{diagnosed, diagnostic_is, Failure, Locus, Namespace};
use crate::lifecycle::State;
use crate::render::{bytes_text, push_bytes, MIB};
use crate::text::{dec, push_decimal};

verus! {

/// The headroom floor a derived target leaves: 512 MiB.
pub const HEADROOM_FLOOR_BYTES: u64 = 536870912;

/// What a memory trim measured.
#[derive(Clone, Copy, Debug)]
pub struct MemoryTrimReading {
    pub target_mib: u64,
    pub before: u64,
    pub after: u64,
}

/// The guest's working set in whole MiB, rounded up.
pub open spec fn working_set_spec(total_bytes: u64, available_bytes: u64) -> nat {
    let used: nat = if total_bytes >= available_bytes {
        (total_bytes - available_bytes) as nat
    } else {
        0
    };
    ((used + MIB - 1) / (MIB as int)) as nat
}

pub fn working_set_mib(total_bytes: u64, available_bytes: u64) -> (mib: u64)
    ensures
        mib == working_set_spec(total_bytes, available_bytes),
{
    let used = if total_bytes >= available_bytes {
        total_bytes - available_bytes
    } else {
        0
    };
    let whole = used / MIB;
    if used % MIB == 0 {
        whole
    } else {
        whole + 1
    }
}

/// A derived target: the working set plus a quarter of it, and never less than 512 MiB of
/// headroom.
pub open spec fn headroom_spec(working_set_mib: u64) -> nat {
    let floor_mib: nat = HEADROOM_FLOOR_BYTES as nat / MIB as nat;
    let headroom = if working_set_mib / 4 > floor_mib {
        (working_set_mib / 4) as nat
    } else {
        floor_mib
    };
    (working_set_mib + headroom) as nat
}

pub fn headroom_target(working_set_mib: u64) -> (mib: u64)
    requires
        headroom_spec(working_set_mib) <= u64::MAX,
    ensures
        mib == headroom_spec(working_set_mib),
{
    let floor_mib = HEADROOM_FLOOR_BYTES / MIB;
    let headroom = if working_set_mib / 4 > floor_mib {
        working_set_mib / 4
    } else {
        floor_mib
    };
    working_set_mib + headroom
}

/// How a memory target is decided.
#[derive(Clone, Copy, Debug, PartialEq, Eq, Structural)]
pub enum TargetChoice {
    /// The target to resize to.
    Use(u64),
    /// An explicit target below the guest's own floor, raised to it (the caller warns).
    Raise { from: u64, to: u64 },
    /// No explicit target and no guest report: there is no honest target to derive.
    NeedReport,
}

/// The target: an explicit one stands unless the guest's report puts its floor above it, and a
/// derived one is the headroom target capped at the declared ceiling.
pub open spec fn target_spec(to_mib: Option<u64>, report: Option<(u64, u64)>, declared_mib: u64) -> TargetChoice {
    match to_mib {
        Some(to) => match report {
            Some((total, available)) => if to < working_set_spec(total, available) {
                TargetChoice::Raise { from: to, to: working_set_spec(total, available) as u64 }
            } else {
                TargetChoice::Use(to)
            },
            None => TargetChoice::Use(to),
        },
        None => match report {
            None => TargetChoice::NeedReport,
            Some((total, available)) => {
                let cap = if declared_mib > 1 { declared_mib } else { 1 };
                let derived = headroom_spec(working_set_spec(total, available) as u64);
                TargetChoice::Use(if derived < cap { derived as u64 } else { cap })
            },
        },
    }
}

/// The memory target for one trim.
pub fn target_mib(to_mib: Option<u64>, report: Option<(u64, u64)>, declared_mib: u64) -> (choice: TargetChoice)
    ensures
        choice == target_spec(to_mib, report, declared_mib),
{
    match to_mib {
        Some(to) => match report {
            Some((total, available)) => {
                let floor = working_set_mib(total, available);
                if to < floor {
                    TargetChoice::Raise { from: to, to: floor }
                } else {
                    TargetChoice::Use(to)
                }
            },
            None => TargetChoice::Use(to),
        },
        None => match report {
            None => TargetChoice::NeedReport,
            Some((total, available)) => {
                let cap = if declared_mib > 1 {
                    declared_mib
                } else {
                    1
                };
                let working = working_set_mib(total, available);
                let derived = headroom_target(working);
                TargetChoice::Use(if derived < cap {
                    derived
                } else {
                    cap
                })
            },
        },
    }
}

/// Whether a shrinking charge has settled: it is below where it started and moved by at most
/// one percent since the previous reading.
pub open spec fn settled_spec(before: u64, last: Option<u64>, now: u64) -> bool {
    match last {
        Some(l) => {
            let diff: int = if l >= now { l - now } else { now - l };
            now < before && diff * 100 <= (if l > 1 { l as int } else { 1 })
        },
        None => false,
    }
}

pub fn settled(before: u64, last: Option<u64>, now: u64) -> (done: bool)
    ensures
        done == settled_spec(before, last, now),
{
    match last {
        Some(l) => {
            let diff: u128 = if l >= now {
                (l - now) as u128
            } else {
                (now - l) as u128
            };
            let scale: u128 = if l > 1 {
                l as u128
            } else {
                1
            };
            now < before && diff * 100 <= scale
        },
        None => false,
    }
}

/// What the volumes gave back, each row floored at zero.
pub open spec fn reclaimed_sum(rows: Seq<(u64, u64)>) -> nat
    decreases rows.len(),
{
    if rows.len() == 0 {
        0
    } else {
        reclaimed_sum(rows.drop_last()) + (if rows.last().0 >= rows.last().1 {
            (rows.last().0 - rows.last().1) as nat
        } else {
            0
        })
    }
}

proof fn lemma_reclaimed_prefix_grows(rows: Seq<(u64, u64)>, i: int)
    requires
        0 <= i <= rows.len(),
    ensures
        reclaimed_sum(rows.subrange(0, i)) <= reclaimed_sum(rows),
    decreases rows.len() - i,
{
    if i < rows.len() {
        lemma_reclaimed_prefix_grows(rows, i + 1);
        assert(rows.subrange(0, i + 1).drop_last() =~= rows.subrange(0, i));
    } else {
        assert(rows.subrange(0, i) =~= rows);
    }
}

/// The total a volume trim reports: the sum of each row's before minus after, floored at zero.
pub fn trim_total(rows: &Vec<(u64, u64)>) -> (total: u64)
    requires
        reclaimed_sum(rows@) <= u64::MAX,
    ensures
        total == reclaimed_sum(rows@),
{
    let mut total: u64 = 0;
    let mut i: usize = 0;
    while i < rows.len()
        invariant
            i <= rows.len(),
            reclaimed_sum(rows@) <= u64::MAX,
            total == reclaimed_sum(rows@.subrange(0, i as int)),
        decreases rows.len() - i,
    {
        assert(rows@.subrange(0, i + 1).drop_last() =~= rows@.subrange(0, i as int));
        proof {
            lemma_reclaimed_prefix_grows(rows@, i + 1);
        }
        let (before, after) = rows[i];
        let back = if before >= after {
            before - after
        } else {
            0
        };
        total = total + back;
        i = i + 1;
    }
    assert(rows@.subrange(0, rows@.len() as int) =~= rows@);
    total
}

/// `viv memory trim`'s line: what the host got back, floored at zero, and on what instrument.
pub open spec fn memory_trim_text(r: MemoryTrimReading) -> Seq<char> {
    "reclaimed "@ + bytes_text(if r.before >= r.after { (r.before - r.after) as nat } else { 0 })
        + " of host memory (sandbox scope charge "@ + bytes_text(r.before as nat) + " -> "@
        + bytes_text(r.after as nat) + ", target "@ + dec(r.target_mib as nat) + " MiB)\n"@
}

pub fn memory_trim_line(reading: &MemoryTrimReading) -> (line: String)
    ensures
        line@ == memory_trim_text(*reading),
{
    let back = if reading.before >= reading.after {
        reading.before - reading.after
    } else {
        0
    };
    let mut line = String::new();
    line.append("reclaimed ");
    push_bytes(&mut line, back);
    line.append(" of host memory (sandbox scope charge ");
    push_bytes(&mut line, reading.before);
    line.append(" -> ");
    push_bytes(&mut line, reading.after);
    line.append(", target ");
    push_decimal(&mut line, reading.target_mib);
    line.append(" MiB)\n");
    line
}

/// The refusal of a reclaim on a VM that is not running.
pub open spec fn not_running_failure(f: Failure) -> bool {
    diagnostic_is(f, Namespace::Vm, "trim-not-running"@, "this project's VM is not running"@, (true, "runtime directory"@),
        "a reclaim asks the running guest to give something back, so there is nothing to ask"@, ExitKind::TempFail,
        "`viv start` first, then trim"@)
}

/// A reclaim asks the running guest to give something back, so only a running VM is asked.
pub fn require_running(state: State) -> (r: Result<(), Failure>)
    ensures
        (r is Ok) == (state == State::Running),
        r matches Err(f) ==> not_running_failure(f),
{
    if state == State::Running {
        return Ok(());
    }
    diagnosed(
        Namespace::Vm,
        "trim-not-running",
        "this project's VM is not running".to_owned(),
        Locus::Named("runtime directory".to_owned()),
        "a reclaim asks the running guest to give something back, so there is nothing to ask".to_owned(),
        ExitKind::TempFail,
    ).with_hint("`viv start` first, then trim".to_owned()).into_err()
}

/// How a control call failed.
#[derive(Clone, Copy, Debug, PartialEq, Eq, Structural)]
pub enum ControlCallError {
    /// The agent could not be reached.
    Unreachable,
    /// The channel broke after an authorized handshake.
    Protocol,
}

/// Whether `f` is what a control call's `error` costs, for the request named `asked_for`.
pub open spec fn control_failed(f: Failure, error: ControlCallError, asked_for: Seq<char>) -> bool {
    f matches Failure::Diagnosed { diagnostic: d, code } && match error {
        ControlCallError::Unreachable => code == ExitKind::Unavailable && d.id@ == "control-socket-unavailable"@
            && d.why@ == "the guest agent did not answer the "@ + asked_for + " request"@,
        ControlCallError::Protocol => code == ExitKind::IoErr && d.id@ == "control-socket-failed"@
            && d.why@ == "the "@ + asked_for + " request failed after an authorized handshake"@,
    }
}

/// The failure a control call's error costs: an unreachable agent is unavailable, a broken
/// exchange is I/O.
pub fn control_failure(error: ControlCallError, asked_for: &str) -> (f: Failure)
    ensures
        control_failed(f, error, asked_for@),
{
    match error {
        ControlCallError::Unreachable => {
            let mut why = String::new();
            why.append("the guest agent did not answer the ");
            why.append(asked_for);
            why.append(" request");
            diagnosed(
                Namespace::Vm,
                "control-socket-unavailable",
                "the running VM's agent cannot be reached".to_owned(),
                Locus::Named("control socket".to_owned()),
                why,
                ExitKind::Unavailable,
            )
        },
        ControlCallError::Protocol => {
            let mut why = String::new();
            why.append("the ");
            why.append(asked_for);
            why.append(" request failed after an authorized handshake");
            diagnosed(
                Namespace::Vm,
                "control-socket-failed",
                "the control channel broke mid-exchange".to_owned(),
                Locus::Named("control socket".to_owned()),
                why,
                ExitKind::IoErr,
            )
        },
    }
}

/// The refusal of a scope charge that cannot be read.
pub open spec fn charge_unreadable(f: Failure) -> bool {
    diagnostic_is(f, Namespace::Host, "memory-unreadable"@, "the sandbox's memory charge cannot be read"@,
        (true, "systemd user scope"@),
        "the scope charge is the figure this command reports, and a figure it cannot read is a figure it will not fabricate"@,
        ExitKind::IoErr, "`viv doctor` checks the user manager's cgroup memory accounting"@)
}

/// The scope charge this command reports, or the failure of a figure it will not fabricate.
pub fn measured_charge(reading: Option<u64>) -> (r: Result<u64, Failure>)
    ensures
        match reading {
            Some(b) => r == Ok::<u64, Failure>(b),
            None => r matches Err(f) && charge_unreadable(f),
        },
{
    match reading {
        Some(b) => Ok(b),
        None => diagnosed(
            Namespace::Host,
            "memory-unreadable",
            "the sandbox's memory charge cannot be read".to_owned(),
            Locus::Named("systemd user scope".to_owned()),
            "the scope charge is the figure this command reports, and a figure it cannot read is a figure it will not fabricate".to_owned(),
            ExitKind::IoErr,
        ).with_hint("`viv doctor` checks the user manager's cgroup memory accounting".to_owned()).into_err(),
    }
}

} // verus!
