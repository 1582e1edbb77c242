//! How an attached start ends: what it says when there was nothing to attach to or once the
//! stream opens, and what it exits with when a terminating signal arrives.
use vstd::prelude::*;
use crate::exit::ExitKind;
use crate::lifecycle::Resources;
use crate::text::{dec, push_decimal};

verus! {

/// The exit a signal status `128 + n` maps to: an interrupt is the user's own way out and a
/// success; every other signal keeps its status.
pub open spec fn signal_exit_spec(signal: u8) -> ExitKind {
    if signal == 130 {
        ExitKind::Success
    } else {
        ExitKind::GuestStatus(signal)
    }
}

pub fn signal_exit(signal: u8) -> (kind: ExitKind)
    ensures
        kind == signal_exit_spec(signal),
{
    if signal == 128 + 2 {
        ExitKind::Success
    } else {
        ExitKind::GuestStatus(signal)
    }
}

/// The note of an attached start that reached a VM already running: the start's own note, then
/// why nothing was attached.
pub open spec fn nothing_attached_text(notes: Seq<char>) -> Seq<char> {
    notes + "`--attach` streams only a boot this command performs, so nothing was attached\n"@
}

pub fn nothing_attached(notes: &str) -> (text: String)
    ensures
        text@ == nothing_attached_text(notes@),
{
    let mut text = String::new();
    text.append(notes);
    text.append("`--attach` streams only a boot this command performs, so nothing was attached\n");
    text
}

/// The closing line of an attached boot, as the stream opens.
pub open spec fn streaming_text(r: Resources) -> Seq<char> {
    "running · "@ + dec(r.mem_mib as nat) + " MiB · "@ + dec(r.vcpu as nat) + " vcpu · streaming the console; Ctrl-C detaches"@
}

pub fn streaming_outro(r: Resources) -> (text: String)
    ensures
        text@ == streaming_text(r),
{
    let mut text = String::new();
    text.append("running · ");
    push_decimal(&mut text, r.mem_mib);
    text.append(" MiB · ");
    push_decimal(&mut text, r.vcpu);
    text.append(" vcpu · streaming the console; Ctrl-C detaches");
    text
}

/// The exit of an attached start that found the VM already running: a terminating signal that
/// arrived while the start blocked keeps its meaning, and otherwise the start succeeded.
pub fn nothing_attached_exit(pending: Option<u8>) -> (kind: ExitKind)
    ensures
        kind == match pending {
            Some(s) => signal_exit_spec(s),
            None => ExitKind::Success,
        },
{
    match pending {
        Some(s) => signal_exit(s),
        None => ExitKind::Success,
    }
}

} // verus!
