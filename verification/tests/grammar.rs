use vivarium::grammar::{parse, Invocation, Output, Streams, Verbosity};

fn argv(rest: &[&str]) -> Vec<Vec<u8>> {
    std::iter::once("viv")
        .chain(rest.iter().copied())
        .map(|token| token.as_bytes().to_vec())
        .collect()
}

fn tty() -> Streams {
    Streams { stdin_is_tty: true, stdout_is_tty: true, stderr_is_tty: true }
}

fn piped() -> Streams {
    Streams { stdin_is_tty: false, stdout_is_tty: false, stderr_is_tty: false }
}

fn parsed(rest: &[&str]) -> Result<Invocation, String> {
    parsed_with(rest, piped())
}

fn parsed_with(rest: &[&str], streams: Streams) -> Result<Invocation, String> {
    parse(argv(rest), streams).map(|parsed| parsed.invocation).map_err(|error| error.message)
}

fn bytes_of(tokens: &[&str]) -> Vec<Vec<u8>> {
    tokens.iter().map(|token| token.as_bytes().to_vec()).collect()
}

fn output_of(invocation: &Invocation) -> Option<Output> {
    match invocation {
        Invocation::Config { output, .. }
        | Invocation::ConfigEval { output }
        | Invocation::ConfigSources { output }
        | Invocation::ManifestList { output }
        | Invocation::ManifestShow { output, .. }
        | Invocation::Start { output, .. }
        | Invocation::Status { output, .. }
        | Invocation::Stop { output, .. }
        | Invocation::VolumeList { output }
        | Invocation::VolumePrune { output, .. }
        | Invocation::Destroy { output, .. }
        | Invocation::GenerationsList { output }
        | Invocation::GenerationsPrune { output, .. }
        | Invocation::GenerationsActivate { output, .. }
        | Invocation::GenerationsRollback { output }
        | Invocation::Gc { output }
        | Invocation::Doctor { output, .. } => Some(*output),
        Invocation::StartSpec { .. }
        | Invocation::Exec(_)
        | Invocation::Shell(_)
        | Invocation::Help { .. }
        | Invocation::Version => None,
    }
}

#[test]
fn the_supervisor_handoff_survives_the_published_surface() -> Result<(), String> {
    assert_eq!(
        parsed(&["start", "--spec", "/run/a/launch.json"])?,
        Invocation::StartSpec { spec: b"/run/a/launch.json".to_vec() }
    );
    for rejected in [
        vec!["start", "--spec"],
        vec!["start", "--spec", "launch.json"],
        vec!["start", "--spec", "/run/a/launch.json", "x"],
    ] {
        assert!(parse(argv(&rejected), piped()).is_err(), "accepted a malformed handoff: {rejected:?}");
    }
    Ok(())
}

#[test]
fn contradicting_flags_are_usage_errors() {
    for rejected in [
        vec!["start", "--rebuild", "--no-rebuild"],
        vec!["exec", "-t", "--no-tty", "--", "true"],
        vec!["stop", "--force", "--timeout", "5"],
    ] {
        assert!(parse(argv(&rejected), tty()).is_err(), "accepted contradicting flags: {rejected:?}");
    }
    assert!(parse(argv(&["stop", "--force", "--timeout", "0"]), tty()).is_ok());
}

#[test]
fn the_timeout_domain_admits_only_zero_up_and_minus_one() {
    for accepted in ["0", "1", "600", "-1"] {
        assert!(parse(argv(&["stop", "--timeout", accepted]), tty()).is_ok(), "rejected `{accepted}`");
    }
    for rejected in ["-2", "-10", "1.5", "abc", ""] {
        assert!(parse(argv(&["stop", "--timeout", rejected]), tty()).is_err(), "accepted `{rejected}`");
    }
}

#[test]
fn stream_dependent_grammar_reads_the_host_not_a_flag() {
    assert!(parse(argv(&["exec", "-t", "--", "true"]), piped()).is_err());
    assert!(parse(argv(&["exec", "-t", "--", "true"]), tty()).is_ok());
    assert!(parse(argv(&["destroy"]), piped()).is_err());
    assert!(parse(argv(&["destroy"]), tty()).is_ok());
    assert!(parse(argv(&["destroy", "--yes"]), piped()).is_ok());
}

#[test]
fn exec_requires_a_separator_and_a_command() {
    assert!(parse(argv(&["exec"]), tty()).is_err());
    assert!(parse(argv(&["exec", "--"]), tty()).is_err());
    assert!(parse(argv(&["exec", "--", "true"]), tty()).is_ok());
}

#[test]
fn the_argv_boundary_is_a_boundary() -> Result<(), String> {
    let session = match parsed(&["exec", "--", "sh", "-lc", "x", "--json", "--", "-"])? {
        Invocation::Exec(session) => session,
        other => return Err(format!("`exec` parsed as {other:?}")),
    };
    assert_eq!(session.argv, bytes_of(&["sh", "-lc", "x", "--json", "--", "-"]));
    Ok(())
}

#[test]
fn terminal_allocation_resolves_to_what_the_wire_asks_for() -> Result<(), String> {
    let pty_of = |rest: &[&str]| match parsed_with(rest, tty()) {
        Ok(Invocation::Exec(session)) => Ok(session.pty),
        Ok(other) => Err(format!("parsed as {other:?}")),
        Err(message) => Err(message),
    };
    assert!(!pty_of(&["exec", "--", "true"])?, "exec defaults to no pty");
    assert!(pty_of(&["exec", "-t", "--", "true"])?);
    assert!(pty_of(&["exec", "--tty", "--", "true"])?);
    assert!(!pty_of(&["exec", "-T", "--", "true"])?);
    assert!(!pty_of(&["exec", "--no-tty", "--", "true"])?);
    match parsed(&["shell"])? {
        Invocation::Shell(session) => {
            assert!(session.pty);
            assert!(session.argv.is_empty());
        }
        other => return Err(format!("`shell` parsed as {other:?}")),
    }
    Ok(())
}

#[test]
fn env_carries_both_forms_in_the_order_given() -> Result<(), String> {
    let session = match parsed_with(
        &["exec", "--env", "TERM", "--env", "A=1", "--env", "B=", "--env", "A=2", "--", "true"],
        tty(),
    )? {
        Invocation::Exec(session) => session,
        other => return Err(format!("`exec` parsed as {other:?}")),
    };
    let named = |name: &str, value: Option<&str>| {
        (name.as_bytes().to_vec(), value.map(|value| value.as_bytes().to_vec()))
    };
    assert_eq!(
        session.env,
        vec![named("TERM", None), named("A", Some("1")), named("B", Some("")), named("A", Some("2"))]
    );
    for rejected in [
        vec!["exec", "--env", "--", "true"],
        vec!["exec", "--env", "=1", "--", "true"],
        vec!["exec", "--env", "", "--", "true"],
        vec!["exec", "--env"],
    ] {
        assert!(parse(argv(&rejected), tty()).is_err(), "accepted a malformed `--env`: {rejected:?}");
    }
    Ok(())
}

#[test]
fn manifest_show_takes_exactly_one_name() -> Result<(), String> {
    assert!(parse(argv(&["manifest", "show"]), piped()).is_err());
    assert!(parse(argv(&["manifest", "show", "one", "two"]), piped()).is_err());
    assert_eq!(
        parsed(&["manifest", "show", "one", "--json"])?,
        Invocation::ManifestShow { name: "one".to_owned(), output: Output::Json }
    );
    Ok(())
}

#[test]
fn an_unknown_option_is_rejected_before_resolution() {
    for rejected in [
        vec!["shell", "--unknown"],
        vec!["config", "--unknown"],
        vec!["manifest", "list", "--unknown"],
        vec!["gc", "--unknown"],
    ] {
        assert!(parse(argv(&rejected), tty()).is_err(), "accepted an unknown option: {rejected:?}");
    }
    assert!(parse(argv(&["nonsense"]), tty()).is_err());
    assert!(parse(argv(&[]), tty()).is_err());
}

#[test]
fn every_verb_parses_into_real_work() {
    assert!(matches!(parsed(&["gc"]), Ok(Invocation::Gc { .. })));
    assert!(matches!(parsed(&["volume", "list"]), Ok(Invocation::VolumeList { .. })));
    assert!(matches!(parsed(&["volume", "prune", "--yes"]), Ok(Invocation::VolumePrune { .. })));
    assert!(matches!(parsed(&["destroy", "--yes"]), Ok(Invocation::Destroy { .. })));
}

#[test]
fn the_generations_family_parses_and_refuses() {
    assert!(matches!(parsed(&["generations", "list"]), Ok(Invocation::GenerationsList { .. })));
    assert!(matches!(
        parsed(&["generations", "activate", "3"]),
        Ok(Invocation::GenerationsActivate { number: 3, .. })
    ));
    assert!(matches!(parsed(&["generations", "rollback"]), Ok(Invocation::GenerationsRollback { .. })));
    assert!(matches!(
        parsed(&["generations", "prune", "--keep", "2"]),
        Ok(Invocation::GenerationsPrune { keep: Some(2), older_than_seconds: None, .. })
    ));
    assert!(matches!(
        parsed(&["generations", "prune", "--older-than", "30d"]),
        Ok(Invocation::GenerationsPrune { keep: None, older_than_seconds: Some(2_592_000), .. })
    ));
    for rejected in [
        vec!["generations"],
        vec!["generations", "bogus"],
        vec!["generations", "activate"],
        vec!["generations", "activate", "x"],
        vec!["generations", "prune"],
        vec!["generations", "prune", "--keep", "1", "--older-than", "1d"],
        vec!["generations", "prune", "--keep", "x"],
        vec!["generations", "prune", "--older-than", "7"],
        vec!["generations", "prune", "--older-than", "d"],
        vec!["generations", "prune", "--older-than", "7w"],
    ] {
        assert!(parse(argv(&rejected), tty()).is_err(), "accepted: {rejected:?}");
    }
}

#[test]
fn start_generation_takes_a_value_and_conflicts_with_rebuilds() {
    assert!(matches!(
        parsed(&["start", "--generation", "2"]),
        Ok(Invocation::Start { generation: Some(2), .. })
    ));
    assert!(matches!(
        parsed(&["start", "--generation", "2", "-v"]),
        Ok(Invocation::Start { generation: Some(2), .. })
    ));
    for rejected in [
        vec!["start", "--generation"],
        vec!["start", "--generation", "x"],
        vec!["start", "--generation", "2", "--rebuild"],
        vec!["start", "--generation", "2", "--no-rebuild"],
    ] {
        assert!(parse(argv(&rejected), tty()).is_err(), "accepted: {rejected:?}");
    }
}

#[test]
fn every_destroy_flag_reaches_the_invocation() {
    assert!(matches!(
        parsed(&["destroy", "--yes", "--keep-volumes"]),
        Ok(Invocation::Destroy { keep_volumes: true, yes: true, .. })
    ));
    assert!(matches!(
        parsed(&["destroy", "-f"]),
        Ok(Invocation::Destroy { keep_volumes: false, yes: true, .. })
    ));
}

#[test]
fn a_prune_preview_needs_no_consent_and_a_prune_does() {
    assert!(parse(argv(&["volume", "prune"]), piped()).is_err());
    for preview in [vec!["volume", "prune", "-n"], vec!["volume", "prune", "--dry-run"]] {
        assert!(matches!(parsed(&preview), Ok(Invocation::VolumePrune { dry_run: true, .. })));
    }
    assert!(matches!(
        parsed(&["volume", "prune", "--yes"]),
        Ok(Invocation::VolumePrune { dry_run: false, yes: true, .. })
    ));
    assert!(matches!(
        parse(argv(&["volume", "prune"]), tty()).map(|parsed| parsed.invocation),
        Ok(Invocation::VolumePrune { yes: false, .. })
    ));
}

#[test]
fn json_is_recognized_wherever_it_is_specified() -> Result<(), String> {
    for rest in [
        vec!["config", "--json"],
        vec!["manifest", "list", "--json"],
        vec!["volume", "list", "--json"],
        vec!["stop", "--json"],
    ] {
        let invocation = parsed_with(&rest, tty())?;
        let output = output_of(&invocation).ok_or_else(|| format!("{rest:?} parsed as the private handoff"))?;
        assert!(output.is_json(), "--json was dropped by {rest:?}");
    }
    Ok(())
}

#[test]
fn a_global_flag_is_positionless() -> Result<(), String> {
    let before = parse(argv(&["-v", "status"]), piped()).map_err(|error| error.message)?;
    let after = parse(argv(&["status", "-v"]), piped()).map_err(|error| error.message)?;
    assert_eq!(before, after);
    assert_eq!(before.verbosity, Verbosity::Verbose);
    assert!(matches!(before.invocation, Invocation::Status { .. }));
    Ok(())
}

#[test]
fn verbosity_stacks_and_the_last_side_wins() -> Result<(), String> {
    for (rest, expected) in [
        (vec!["status"], Verbosity::Normal),
        (vec!["status", "-q"], Verbosity::Quiet),
        (vec!["status", "-v", "-v"], Verbosity::Debug),
        (vec!["status", "-vv"], Verbosity::Debug),
        (vec!["status", "-vvv"], Verbosity::Trace),
        (vec!["status", "-v", "-v", "-v", "-v"], Verbosity::Trace),
        (vec!["-v", "status", "-q"], Verbosity::Quiet),
        (vec!["-q", "status", "-v"], Verbosity::Verbose),
    ] {
        let parsed = parse(argv(&rest), piped()).map_err(|error| error.message)?;
        assert_eq!(parsed.verbosity, expected, "{rest:?}");
    }
    Ok(())
}

#[test]
fn the_lift_stops_at_the_guest_boundary() -> Result<(), String> {
    let parsed = parse(argv(&["exec", "-v", "--", "cargo", "build", "-v"]), piped())
        .map_err(|error| error.message)?;
    assert_eq!(parsed.verbosity, Verbosity::Verbose);
    let Invocation::Exec(session) = parsed.invocation else {
        return Err("did not parse as exec".to_owned());
    };
    assert_eq!(session.argv, bytes_of(&["cargo", "build", "-v"]));
    let parsed = parse(argv(&["exec", "--", "cargo", "--help"]), piped()).map_err(|error| error.message)?;
    assert!(matches!(parsed.invocation, Invocation::Exec(_)));
    Ok(())
}

#[test]
fn the_lift_never_reads_past_a_value_flag() {
    assert!(parse(argv(&["stop", "-t", "-v"]), tty()).is_err());
    let parsed = parse(argv(&["exec", "-t", "-v", "--", "true"]), tty());
    assert!(matches!(parsed.map(|parsed| parsed.verbosity), Ok(Verbosity::Verbose)));
    assert!(matches!(
        parsed_with(&["config", "--manifest", "-v"], piped()),
        Ok(Invocation::Config { manifest: Some(name), .. }) if name == "-v"
    ));
}

#[test]
fn help_and_version_answer_before_anything_can_fail() {
    assert!(matches!(parsed(&["--help"]), Ok(Invocation::Help { verb: None })));
    assert!(matches!(
        parsed(&["start", "--help"]),
        Ok(Invocation::Help { verb: Some(ref name) }) if name == "start"
    ));
    assert!(matches!(
        parsed(&["start", "--bogus", "-h"]),
        Ok(Invocation::Help { verb: Some(ref name) }) if name == "start"
    ));
    assert!(matches!(parsed(&["--version"]), Ok(Invocation::Version)));
    assert!(matches!(parsed(&["status", "--version"]), Ok(Invocation::Version)));
}

#[test]
fn a_usage_error_names_the_verb_usage() {
    let error = parse(argv(&["gc", "--unknown"]), tty()).err().unwrap();
    assert_eq!(error.message, "unknown option `--unknown`");
    assert_eq!(error.usage, Some(vivarium::grammar::GC_USAGE));
}
