//! The guest build and the launch handoff: the attribute `nix build` is asked for, what its run
//! means, whether its output is a new generation, and what the handoff's run means.
use vstd::prelude::*;
use crate::exit::ExitKind;
use crate::failure::{diagnosed, diagnostic_is, Failure, Locus, Namespace};
use crate::stop::plain_diagnostic;
use crate::text::{lines_of, lossy, lossy_text, split_lines, trim, trim_spec};

verus! {

/// The flake attribute of the runner for a system: `<flake>#runner.<system>`.
pub open spec fn runner_attribute_text(flake_directory: Seq<char>, system: Seq<char>) -> Seq<char> {
    flake_directory + "#runner."@ + system
}

pub fn runner_attribute(flake_directory: &str, system: &str) -> (a: String)
    ensures
        a@ == runner_attribute_text(flake_directory@, system@),
{
    let mut a = String::new();
    a.append(flake_directory);
    a.append("#runner.");
    a.append(system);
    a
}

/// The path a `nix build --print-out-paths` run printed: its last line, trimmed.
pub open spec fn printed_path(stdout: Seq<u8>) -> Seq<char> {
    let lines = lines_of(lossy_text(stdout));
    if lines.len() == 0 {
        Seq::empty()
    } else {
        trim_spec(lines.last())
    }
}

/// What a build run that could not be started costs.
pub fn build_unavailable(error: String) -> (f: Failure)
    ensures
        plain_diagnostic(f, Namespace::Store, "nix-unavailable"@, "could not run `nix`"@, "guest build"@, error@,
            ExitKind::Software),
{
    diagnosed(
        Namespace::Store,
        "nix-unavailable",
        "could not run `nix`".to_owned(),
        Locus::Named("guest build".to_owned()),
        error,
        ExitKind::Software,
    )
}

/// What a finished build run means: a failure carries its report, trimmed; a success names the
/// output path it printed last, and a success that printed none is a failure of its own.
pub fn build_outcome(succeeded: bool, stdout: &[u8], stderr: &str) -> (r: Result<String, Failure>)
    ensures
        !succeeded ==> (r matches Err(f) && plain_diagnostic(f, Namespace::Store, "build-failed"@,
            "the guest could not be built"@, "guest build"@, trim_spec(stderr@), ExitKind::Software)),
        succeeded && printed_path(stdout@).len() == 0 ==> (r matches Err(f) && plain_diagnostic(f, Namespace::Store,
            "build-empty"@, "the guest build produced no output path"@, "guest build"@,
            "`nix build --print-out-paths` printed nothing"@, ExitKind::Software)),
        succeeded && printed_path(stdout@).len() > 0 ==> (r matches Ok(p) && p@ == printed_path(stdout@)),
{
    if !succeeded {
        return Err(diagnosed(
            Namespace::Store,
            "build-failed",
            "the guest could not be built".to_owned(),
            Locus::Named("guest build".to_owned()),
            trim(stderr).to_owned(),
            ExitKind::Software,
        ));
    }
    let text = lossy(stdout);
    let lines = split_lines(text.as_str());
    let path = if lines.len() == 0 {
        String::new()
    } else {
        trim(lines[lines.len() - 1].as_str()).to_owned()
    };
    if path.unicode_len() == 0 {
        return Err(diagnosed(
            Namespace::Store,
            "build-empty",
            "the guest build produced no output path".to_owned(),
            Locus::Named("guest build".to_owned()),
            "`nix build --print-out-paths` printed nothing".to_owned(),
            ExitKind::Software,
        ));
    }
    Ok(path)
}

/// Whether a build is recorded as a new generation: a build's freshness key is its store path,
/// so an output the current generation already pins is the same build and is not appended again.
pub fn records_generation(current: Option<&str>, built: &str) -> (fresh: bool)
    ensures
        fresh == !(current matches Some(c) && c@ == built@),
{
    match current {
        Some(c) => !crate::lifecycle::same_text(c, built),
        None => true,
    }
}

/// What a launch handoff that could not be started costs.
pub fn handoff_unavailable(program: &str, error: String) -> (f: Failure)
    ensures
        f matches Failure::Diagnosed { diagnostic: d, code } && code == ExitKind::Software && d.namespace == Namespace::Vm
            && d.id@ == "launcher-unavailable"@ && d.what@ == "could not re-invoke this binary for the launch handoff"@
            && (match d.locus {
                Locus::File(p) => p@ == program@,
                Locus::Named(_) => false,
            }) && d.why@ == error@ && d.hint is None,
{
    diagnosed(
        Namespace::Vm,
        "launcher-unavailable",
        "could not re-invoke this binary for the launch handoff".to_owned(),
        Locus::File(program.to_owned()),
        error,
        ExitKind::Software,
    )
}

/// What a finished launch handoff means: success, or a VM that did not come up, with the handoff's
/// own report as the reason and the unit's journal as the place to look.
pub fn handoff_outcome(succeeded: bool, stderr: &str, unit: &str) -> (r: Result<(), Failure>)
    ensures
        succeeded ==> r is Ok,
        !succeeded ==> (r matches Err(f) && diagnostic_is(f, Namespace::Vm, "start-failed"@, "the VM did not come up"@,
            (true, "guest launch"@), trim_spec(stderr@), ExitKind::Unavailable,
            "`journalctl --user -u "@ + unit@ + "` carries the supervisor's own diagnostic"@)),
{
    if succeeded {
        return Ok(());
    }
    let mut hint = String::new();
    hint.append("`journalctl --user -u ");
    hint.append(unit);
    hint.append("` carries the supervisor's own diagnostic");
    Err(diagnosed(
        Namespace::Vm,
        "start-failed",
        "the VM did not come up".to_owned(),
        Locus::Named("guest launch".to_owned()),
        trim(stderr).to_owned(),
        ExitKind::Unavailable,
    ).with_hint(hint))
}

} // verus!
