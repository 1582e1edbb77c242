//! The checks `start` makes before it builds or boots: the host memory admission, and which
//! retained generation a `--generation` start boots.
use vstd::prelude::*;
use crate::exit::ExitKind;
use crate::failure::{diagnosed, diagnostic_is, Failure, Locus, Namespace};
use crate::lifecycle::{admission_for, admission_spec, admission_warning, admission_warning_text, Admission, FleetUse, MEMORY_RESERVE_BYTES};
use crate::render::{bytes_text, push_bytes};
use crate::numbers::{parse_u64, std_parse_u64};
use crate::paths::{join, join_path};
use crate::text::{dec, push_decimal, trim, trim_spec};
use vstd::utf8::encode_utf8;

verus! {

/// The refusal of a host below the admission reserve.
pub open spec fn is_reserve_refusal(f: Failure, available: u64) -> bool {
    diagnostic_is(f, Namespace::Host, "memory-reserve"@, bytes_text(available as nat) + " of host memory is available, below the "@
        + bytes_text(MEMORY_RESERVE_BYTES as nat) + " admission reserve"@, (true, "admission"@),
        "spec/17's admission check refuses before any build or boot, so a host below its reserve never pays for a VM it cannot serve"@,
        ExitKind::Unavailable, "`viv status -g` shows what is running; `viv stop` a project you are done with"@)
}

/// The admission check's first half, from the host's available memory alone: a host below the
/// reserve is refused before anything is built or booted.
pub fn admission_refusal(available: Option<u64>) -> (refusal: Option<Failure>)
    ensures
        match refusal {
            Some(f) => admission_spec(available, None) == Admission::Refuse && available is Some
                && is_reserve_refusal(f, available->0),
            None => admission_spec(available, None) != Admission::Refuse,
        },
{
    match admission_for(available, None) {
        Admission::Refuse => {
            let bytes = match available {
                Some(b) => b,
                None => 0,
            };
            let mut what = String::new();
            push_bytes(&mut what, bytes);
            what.append(" of host memory is available, below the ");
            push_bytes(&mut what, MEMORY_RESERVE_BYTES);
            what.append(" admission reserve");
            Some(diagnosed(
                Namespace::Host,
                "memory-reserve",
                what,
                Locus::Named("admission".to_owned()),
                "spec/17's admission check refuses before any build or boot, so a host below its reserve never pays for a VM it cannot serve".to_owned(),
                ExitKind::Unavailable,
            ).with_hint("`viv status -g` shows what is running; `viv stop` a project you are done with".to_owned()))
        },
        _ => None,
    }
}

/// The admission check's second half, once the fleet has been measured: the warning when the
/// fleet's use and the reserve would not fit in what is available. A fleet that could not be
/// measured warns of nothing.
pub fn admission_note(available: Option<u64>, total: Option<u64>, fleet: Option<FleetUse>, sandbox_id: &str) -> (note: Option<String>)
    ensures
        match fleet {
            Some(fl) => match note {
                Some(n) => admission_spec(available, fl.measured_bytes) == Admission::Warn
                    && n@ == admission_warning_text(fl, total, sandbox_id@),
                None => admission_spec(available, fl.measured_bytes) != Admission::Warn,
            },
            None => note is None,
        },
{
    match fleet {
        Some(fl) => match admission_for(available, fl.measured_bytes) {
            Admission::Warn => Some(admission_warning(&fl, total, sandbox_id)),
            _ => None,
        },
        None => None,
    }
}

/// What the generation link names: nothing, or a build output that still exists or is gone.
pub enum RetainedLink {
    /// No link with this number.
    Missing,
    /// The link's target, and whether it still exists.
    Target { path: String, exists: bool },
}

/// Which build a `--generation` start boots: refused while the VM runs, and refused for a
/// generation that is not retained or whose output was collected.
pub open spec fn retained_boot_spec(number: u64, running: bool, link: RetainedLink, r: Result<String, Failure>) -> bool {
    if running {
        match r {
            Ok(_) => false,
            Err(f) => diagnostic_is(f, Namespace::Vm, "generation-swap"@, "this project's VM is already running"@,
                (true, "build history"@), "booting a named generation replaces the VM, and `start` never replaces a running one"@,
                ExitKind::TempFail, "`viv stop` first, then `viv start --generation "@ + dec(number as nat) + "`"@),
        }
    } else {
        match link {
            RetainedLink::Missing => match r {
                Ok(_) => false,
                Err(f) => diagnostic_is(f, Namespace::State, "no-build"@, "generation "@ + dec(number as nat) + " is not retained"@,
                    (true, "build history"@), "`--generation` boots a retained build, and no generation with this number exists for this project"@,
                    ExitKind::DataErr, "`viv generations list` names what is retained"@),
            },
            RetainedLink::Target { path, exists } => if exists {
                match r {
                    Ok(p) => p@ == path@,
                    Err(_) => false,
                }
            } else {
                match r {
                    Ok(_) => false,
                    Err(f) => diagnostic_is(f, Namespace::State, "no-build"@, "generation "@ + dec(number as nat)
                        + "'s build output is gone from the store"@, (false, path@),
                        "the recorded output was collected out from under its root, which no ordinary `nix-collect-garbage` does"@,
                        ExitKind::DataErr, "run `viv start` to evaluate and build a fresh generation"@),
                }
            },
        }
    }
}

/// The build output a `--generation <number>` start boots.
pub fn retained_boot(number: u64, running: bool, link: RetainedLink) -> (r: Result<String, Failure>)
    ensures
        retained_boot_spec(number, running, link, r),
{
    if running {
        let mut hint = String::new();
        hint.append("`viv stop` first, then `viv start --generation ");
        push_decimal(&mut hint, number);
        hint.append("`");
        return Err(diagnosed(
            Namespace::Vm,
            "generation-swap",
            "this project's VM is already running".to_owned(),
            Locus::Named("build history".to_owned()),
            "booting a named generation replaces the VM, and `start` never replaces a running one".to_owned(),
            ExitKind::TempFail,
        ).with_hint(hint));
    }
    match link {
        RetainedLink::Missing => {
            let mut what = String::new();
            what.append("generation ");
            push_decimal(&mut what, number);
            what.append(" is not retained");
            Err(diagnosed(
                Namespace::State,
                "no-build",
                what,
                Locus::Named("build history".to_owned()),
                "`--generation` boots a retained build, and no generation with this number exists for this project".to_owned(),
                ExitKind::DataErr,
            ).with_hint("`viv generations list` names what is retained".to_owned()))
        },
        RetainedLink::Target { path, exists } => {
            if exists {
                return Ok(path);
            }
            let mut what = String::new();
            what.append("generation ");
            push_decimal(&mut what, number);
            what.append("'s build output is gone from the store");
            Err(diagnosed(
                Namespace::State,
                "no-build",
                what,
                Locus::File(path),
                "the recorded output was collected out from under its root, which no ordinary `nix-collect-garbage` does".to_owned(),
                ExitKind::DataErr,
            ).with_hint("run `viv start` to evaluate and build a fresh generation".to_owned()))
        },
    }
}

/// What reading a build's published contract schema found.
pub enum SchemaFile {
    /// The file's text.
    Read(String),
    /// No such file: a build from before the contract was published.
    Missing,
    /// The file could not be read; the host's report.
    Unreadable(String),
}

/// `str::parse::<u32>` of a text.
pub open spec fn std_parse_u32(text: Seq<char>) -> Option<u32> {
    match std_parse_u64(encode_utf8(text)) {
        Some(v) => if v <= u32::MAX {
            Some(v as u32)
        } else {
            None
        },
        None => None,
    }
}

/// Where a build publishes its launch contract schema.
pub open spec fn schema_path(store_path: Seq<char>) -> Seq<char> {
    join(join(join(store_path, "share"@), "vivarium"@), "launch-contract-schema"@)
}

/// Why a build's contract is refused, or none when it speaks `ours`.
pub open spec fn contract_refusal(file: SchemaFile, ours: u32) -> Option<Seq<char>> {
    match file {
        SchemaFile::Read(raw) => match std_parse_u32(trim_spec(raw@)) {
            Some(theirs) => if theirs == ours {
                None
            } else {
                Some("the build speaks launch contract schema "@ + dec(theirs as nat) + " and this viv speaks "@ + dec(ours as nat))
            },
            None => Some("the published contract schema is not a number, so it cannot be compared against the "@
                + dec(ours as nat) + " this viv speaks"@),
        },
        SchemaFile::Missing => Some("the build predates the launch-contract publication and cannot name its schema; this viv speaks "@
            + dec(ours as nat)),
        SchemaFile::Unreadable(e) => Some("the build's contract schema could not be read: "@ + e@),
    }
}

/// The selected build must speak this binary's launch contract, `ours`, before anything boots it:
/// another number, no number, or no published schema at all is refused with `78`.
pub fn require_current_contract(store_path: &str, file: SchemaFile, ours: u32) -> (r: Result<(), Failure>)
    ensures
        match contract_refusal(file, ours) {
            None => r is Ok,
            Some(why) => match r {
                Ok(_) => false,
                Err(f) => diagnostic_is(f, Namespace::Vm, "launch-contract-skew"@,
                    "the selected build does not speak this binary's launch contract"@, (false, schema_path(store_path@)), why,
                    ExitKind::Config,
                    "`viv start --rebuild` rebuilds with this version, or run the vivarium generation this build was made by"@),
            },
        },
{
    let mut why = String::new();
    match &file {
        SchemaFile::Read(raw) => {
            let t = trim(raw.as_str());
            let parsed = match parse_u64(t.as_bytes()) {
                Some(v) => if v <= 0xffff_ffffu64 {
                    Some(v as u32)
                } else {
                    None
                },
                None => None,
            };
            match parsed {
                Some(theirs) => {
                    if theirs == ours {
                        return Ok(());
                    }
                    why.append("the build speaks launch contract schema ");
                    push_decimal(&mut why, theirs as u64);
                    why.append(" and this viv speaks ");
                    push_decimal(&mut why, ours as u64);
                },
                None => {
                    why.append("the published contract schema is not a number, so it cannot be compared against the ");
                    push_decimal(&mut why, ours as u64);
                    why.append(" this viv speaks");
                },
            }
        },
        SchemaFile::Missing => {
            why.append("the build predates the launch-contract publication and cannot name its schema; this viv speaks ");
            push_decimal(&mut why, ours as u64);
        },
        SchemaFile::Unreadable(e) => {
            why.append("the build's contract schema could not be read: ");
            why.append(e.as_str());
        },
    }
    let share = join_path(store_path, "share");
    let vivarium = join_path(share.as_str(), "vivarium");
    let path = join_path(vivarium.as_str(), "launch-contract-schema");
    Err(diagnosed(
        Namespace::Vm,
        "launch-contract-skew",
        "the selected build does not speak this binary's launch contract".to_owned(),
        Locus::File(path),
        why,
        ExitKind::Config,
    ).with_hint("`viv start --rebuild` rebuilds with this version, or run the vivarium generation this build was made by".to_owned()))
}

} // verus!
