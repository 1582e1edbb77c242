use vivarium::exit::ExitKind;
use vivarium::failure::{Failure, Locus};
use vivarium::manifest::{library_member, LibraryEntry};
use vivarium::grammar::Output;
use vivarium::update::{update_arguments, update_failure, update_spawn_failure, RootPin};
use vivarium::update_run::{update_begin, update_step, NixRun, UpdateAction, UpdateEvent, UpdatePhase};

fn id_why_code(failure: &Failure) -> (String, String, ExitKind) {
    match failure {
        Failure::Diagnosed { diagnostic, code } => {
            assert!(matches!(&diagnostic.locus, Locus::Named(n) if n == "input re-resolution"));
            (diagnostic.id.clone(), diagnostic.why.clone(), *code)
        }
        Failure::Usage(error) => panic!("a usage error: {}", error.message),
    }
}

#[test]
fn the_reference_lock_is_named_only_when_one_is_in_force() {
    let targets = vec!["nixpkgs".to_owned(), "base/microvm".to_owned()];
    let features = vec!["--extra-experimental-features".to_owned(), "nix-command flakes".to_owned()];
    let with_reference = update_arguments(&targets, &features, "/tmp/tree", "/data/flake.lock.update-7", Some("/data/flake.lock"));
    assert_eq!(
        with_reference,
        vec![
            "flake", "update", "nixpkgs", "base/microvm", "--extra-experimental-features", "nix-command flakes",
            "--flake", "/tmp/tree", "--output-lock-file", "/data/flake.lock.update-7", "--reference-lock-file",
            "/data/flake.lock",
        ]
    );
    let without = update_arguments(&Vec::new(), &Vec::new(), "/tmp/tree", "/data/staged", None);
    assert_eq!(without, vec!["flake", "update", "--flake", "/tmp/tree", "--output-lock-file", "/data/staged"]);
}

#[test]
fn a_re_resolution_that_could_not_run_is_unavailable_or_a_missing_permission() {
    let (id, why, code) = id_why_code(&update_spawn_failure(false, "No such file or directory".to_owned()));
    assert_eq!((id.as_str(), why.as_str(), code), ("update-unavailable", "No such file or directory", ExitKind::Unavailable));
    let (_, _, code) = id_why_code(&update_spawn_failure(true, "Permission denied".to_owned()));
    assert_eq!(code, ExitKind::NoPerm);
}

#[test]
fn an_unreachable_input_is_told_apart_from_a_tool_fault() {
    let (id, why, code) = id_why_code(&update_failure("  error: Unable to download 'https://example.org/x.tar.gz'\n"));
    assert_eq!(id, "input-unreachable");
    assert_eq!(why, "error: Unable to download 'https://example.org/x.tar.gz'");
    assert_eq!(code, ExitKind::Unavailable);
    let (id, _, code) = id_why_code(&update_failure("error: COULDN'T RESOLVE HOST name"));
    assert_eq!((id.as_str(), code), ("input-unreachable", ExitKind::Unavailable));
    let (id, _, code) = id_why_code(&update_failure("error: cannot fetch input"));
    assert_eq!((id.as_str(), code), ("input-unreachable", ExitKind::Unavailable));
    let (id, why, code) = id_why_code(&update_failure("error: evaluation aborted\n"));
    assert_eq!((id.as_str(), why.as_str(), code), ("update-failed", "error: evaluation aborted", ExitKind::Software));
}

#[test]
fn a_library_member_is_a_toml_file_or_a_directory_holding_the_default() {
    let entry = |name: Option<&str>, is_dir: Option<bool>, holds_default: bool| LibraryEntry {
        name: name.map(str::to_owned),
        is_dir,
        holds_default,
    };
    assert_eq!(library_member(&entry(Some("api.toml"), Some(false), false)).as_deref(), Some("api"));
    assert_eq!(library_member(&entry(Some("web"), Some(true), true)).as_deref(), Some("web"));
    assert_eq!(library_member(&entry(Some("helpers"), Some(true), false)), None);
    assert_eq!(library_member(&entry(Some("notes.md"), Some(false), false)), None);
    assert_eq!(library_member(&entry(Some("api.toml"), None, false)), None);
    assert_eq!(library_member(&entry(None, Some(false), false)), None);
    assert_eq!(library_member(&entry(Some(".toml"), Some(false), false)).as_deref(), Some(""));
}

fn pin(fingerprint: &str, display: &str) -> RootPin {
    RootPin { fingerprint: fingerprint.to_owned(), display: Some(display.to_owned()) }
}

fn prepared(reference: Option<&str>) -> UpdateEvent {
    UpdateEvent::Prepared {
        declared: vec!["tools".to_owned()],
        base: None,
        directory: "/k/flakes/api".to_owned(),
        reference: reference.map(str::to_owned),
        owned_path: "/d/projects/api/default/flake.lock".to_owned(),
        created: reference.is_none(),
        locked_base: None,
    }
}

fn to_preparation(inputs: &Vec<String>, features: &Vec<String>) -> UpdatePhase {
    let (phase, action) = update_begin();
    assert!(matches!(action, UpdateAction::Resolve));
    let (phase, action) = update_step(inputs, features, Output::Json, phase, UpdateEvent::Resolved { sandbox: "api".to_owned() });
    assert!(matches!(action, UpdateAction::CheckOverride { ref sandbox } if sandbox == "api"));
    let (phase, action) = update_step(inputs, features, Output::Json, phase, UpdateEvent::Override(None));
    assert!(matches!(action, UpdateAction::ResolveInputs { .. }));
    let declared = UpdateEvent::Declared { declared: vec!["tools".to_owned()], base: None };
    let (phase, action) = update_step(inputs, features, Output::Json, phase, declared);
    assert!(matches!(action, UpdateAction::Lock { .. }));
    let (phase, action) = update_step(inputs, features, Output::Json, phase, UpdateEvent::Passed);
    assert!(matches!(action, UpdateAction::Prepare));
    phase
}

#[test]
fn an_update_runs_under_the_lock_and_reports_the_requested_rows() {
    let inputs = vec!["nixpkgs".to_owned()];
    let features = vec!["--extra-experimental-features".to_owned(), "nix-command flakes".to_owned()];
    let phase = to_preparation(&inputs, &features);
    let (phase, action) = update_step(&inputs, &features, Output::Json, phase, prepared(Some("/k/flakes/api/flake.lock")));
    assert!(matches!(action, UpdateAction::ReadPins { ref path } if path == "/k/flakes/api/flake.lock"));
    let before = vec![("nixpkgs".to_owned(), pin("a", "rev-a")), ("tools".to_owned(), pin("t", "rev-t"))];
    let (phase, action) = update_step(&inputs, &features, Output::Json, phase, UpdateEvent::Pins(before));
    assert!(matches!(action, UpdateAction::MakeParent { ref owned_path } if owned_path == "/d/projects/api/default/flake.lock"));
    let staged = "/d/projects/api/default/flake.lock.update-7".to_owned();
    let (phase, action) = update_step(&inputs, &features, Output::Json, phase, UpdateEvent::ParentMade { staged: staged.clone() });
    match &action {
        UpdateAction::Run { arguments } => assert_eq!(
            arguments,
            &update_arguments(&inputs, &features, "/k/flakes/api", &staged, Some("/k/flakes/api/flake.lock"))
        ),
        _ => panic!("the re-resolution runs next"),
    }
    let (phase, action) = update_step(&inputs, &features, Output::Json, phase, UpdateEvent::Ran(NixRun::Finished { success: true, stderr: String::new() }));
    assert!(matches!(action, UpdateAction::Validate { ref staged } if staged.ends_with("update-7")));
    let after = vec![("nixpkgs".to_owned(), pin("b", "rev-b")), ("tools".to_owned(), pin("t", "rev-t"))];
    let (phase, action) = update_step(&inputs, &features, Output::Json, phase, UpdateEvent::Validated(after));
    assert!(matches!(action, UpdateAction::Persist { .. }));
    let (_, action) = update_step(&inputs, &features, Output::Json, phase, UpdateEvent::Passed);
    match action {
        UpdateAction::Finish(Ok(success)) => {
            assert_eq!(
                success.stdout,
                "{\"inputs\":[{\"after\":\"rev-b\",\"before\":\"rev-a\",\"changed\":true,\"name\":\"nixpkgs\"}],\"lock\":\"/d/projects/api/default/flake.lock\",\"manifest\":\"api\"}\n"
            );
            assert_eq!(success.notes, "");
        }
        _ => panic!("the update completes"),
    }
}

#[test]
fn refusals_come_before_the_lock_and_a_failed_run_removes_its_staged_lock() {
    let features = Vec::new();
    let inputs = vec!["nixpkgs".to_owned()];
    let (phase, _) = update_begin();
    let (phase, _) = update_step(&inputs, &features, Output::Human, phase, UpdateEvent::Resolved { sandbox: "api".to_owned() });
    let over = Some(("/c/locks/api.lock".to_owned(), "/d/projects/api/default/flake.lock".to_owned()));
    let (_, action) = update_step(&inputs, &features, Output::Human, phase, UpdateEvent::Override(over));
    assert!(matches!(action, UpdateAction::Finish(Err(Failure::Diagnosed { ref diagnostic, .. })) if diagnostic.id == "override-in-force"));

    let unknown = vec!["nope".to_owned()];
    let (phase, _) = update_begin();
    let (phase, _) = update_step(&unknown, &features, Output::Human, phase, UpdateEvent::Resolved { sandbox: "api".to_owned() });
    let (phase, _) = update_step(&unknown, &features, Output::Human, phase, UpdateEvent::Override(None));
    let (_, action) = update_step(&unknown, &features, Output::Human, phase, UpdateEvent::Declared { declared: Vec::new(), base: None });
    assert!(matches!(action, UpdateAction::Finish(Err(Failure::Usage(_)))));

    let all = vec!["nope".to_owned()];
    let phase = {
        let (phase, _) = update_begin();
        let (phase, _) = update_step(&all, &features, Output::Json, phase, UpdateEvent::Resolved { sandbox: "api".to_owned() });
        let (phase, _) = update_step(&all, &features, Output::Json, phase, UpdateEvent::Override(None));
        let (phase, _) = update_step(&all, &features, Output::Json, phase, UpdateEvent::Declared { declared: vec!["nope".to_owned()], base: None });
        let (phase, _) = update_step(&all, &features, Output::Json, phase, UpdateEvent::Passed);
        phase
    };
    let (_, action) = update_step(&all, &features, Output::Json, phase, prepared(None));
    match action {
        UpdateAction::Finish(Err(Failure::Diagnosed { diagnostic, code })) => {
            assert_eq!(diagnostic.id, "input-set-changed");
            assert_eq!(code, ExitKind::TempFail);
        }
        _ => panic!("a name the preparation no longer knows is a transient race"),
    }

    let phase = to_preparation(&inputs, &features);
    let (phase, action) = update_step(&inputs, &features, Output::Json, phase, prepared(None));
    assert!(matches!(action, UpdateAction::MakeParent { .. }));
    let (phase, _) = update_step(&inputs, &features, Output::Json, phase, UpdateEvent::ParentMade { staged: "/d/s".to_owned() });
    let ran = NixRun::Finished { success: false, stderr: "error: unable to download x".to_owned() };
    let (phase, action) = update_step(&inputs, &features, Output::Json, phase, UpdateEvent::Ran(ran));
    assert!(matches!(action, UpdateAction::RemoveStaged));
    let (_, action) = update_step(&inputs, &features, Output::Json, phase, UpdateEvent::Passed);
    match action {
        UpdateAction::Finish(Err(Failure::Diagnosed { diagnostic, code })) => {
            assert_eq!(diagnostic.id, "input-unreachable");
            assert_eq!(code, ExitKind::Unavailable);
        }
        _ => panic!("the run's failure is the answer once the staged lock is gone"),
    }
}
