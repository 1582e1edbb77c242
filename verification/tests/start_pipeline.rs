use vivarium::admission::RetainedLink;
use vivarium::exit::ExitKind;
use vivarium::failure::{Failure, Locus};
use vivarium::lifecycle::Runtime;
use vivarium::reuse::{launched_boot, BootRecord, ReuseAction};
use vivarium::lifecycle::{DeclaredResources, Resources, StartOutcome};
use vivarium::start::{ensure_begin, ensure_step, EnsureAction, EnsureEvent, EnsurePhase, lock_failure, start_begin, start_step, LockError, StartAction, StartEvent, StartFlags, StartPhase};
use vivarium::guest_build::{build_outcome, build_unavailable, handoff_outcome, handoff_unavailable, records_generation, runner_attribute};

const PLAIN: StartFlags = StartFlags { rebuild: false, no_rebuild: false, generation: None };

fn through_lock(flags: StartFlags, declared: Option<DeclaredResources>) -> StartPhase {
    let (phase, action) = start_begin();
    assert!(matches!(action, StartAction::Resolve));
    let (phase, action) = start_step(flags, phase, StartEvent::Resolved { sandbox: "api".to_owned(), declared });
    assert!(matches!(action, StartAction::Preflight));
    let (phase, action) = start_step(flags, phase, StartEvent::Preflighted { runtime_root: "/run/user/1000/vivarium".to_owned() });
    assert!(matches!(action, StartAction::Admit { ref sandbox, ref runtime_root } if sandbox == "api" && runtime_root == "/run/user/1000/vivarium"));
    let (phase, action) = start_step(flags, phase, StartEvent::Passed);
    match &action {
        StartAction::Lock { runtime } => {
            assert_eq!(runtime.directory, "/run/user/1000/vivarium/api/default");
            assert_eq!(runtime.unit, "vivarium-api-default.service");
        }
        _ => panic!("an admitted start takes the target lock"),
    }
    let (phase, action) = start_step(flags, phase, StartEvent::Passed);
    assert!(matches!(action, StartAction::Discriminate));
    phase
}

fn failure_id(action: StartAction) -> (String, ExitKind) {
    match action {
        StartAction::Finish(Err(Failure::Diagnosed { diagnostic, code })) => (diagnostic.id.clone(), code),
        _ => panic!("the start was expected to fail"),
    }
}

fn notes_of(action: StartAction) -> String {
    match action {
        StartAction::Finish(Ok(StartOutcome::AlreadyRunning { notes })) => notes,
        _ => panic!("the start was expected to leave the VM alone"),
    }
}

#[test]
fn a_cold_start_evaluates_builds_and_launches_with_the_merged_ceilings() {
    let leaf = Some(DeclaredResources { mem_mib: Some(1024), vcpu: Some(1) });
    let phase = through_lock(PLAIN, leaf);
    let (phase, action) = start_step(PLAIN, phase, StartEvent::Discriminated { running: false });
    assert!(matches!(action, StartAction::EvaluateAndBuild));
    let merged = Some(DeclaredResources { mem_mib: Some(2048), vcpu: Some(4) });
    let (phase, action) = start_step(PLAIN, phase, StartEvent::Built { store_path: "/nix/store/new".to_owned(), merged });
    assert!(matches!(action, StartAction::ReadHost));
    let (phase, action) = start_step(PLAIN, phase, StartEvent::Host { total_bytes: None, parallelism: None });
    match &action {
        StartAction::Launch { store_path, resources, runtime } => {
            assert_eq!(store_path, "/nix/store/new");
            assert_eq!(*resources, Resources { mem_mib: 2048, vcpu: 4 });
            assert_eq!(runtime.directory, "/run/user/1000/vivarium/api/default");
        }
        _ => panic!("a cold start launches"),
    }
    let (phase, action) = start_step(PLAIN, phase, StartEvent::Passed);
    assert!(matches!(phase, StartPhase::Done));
    assert!(matches!(action, StartAction::Finish(Ok(StartOutcome::Booted { resources })) if resources == Resources { mem_mib: 2048, vcpu: 4 }));
}

#[test]
fn a_running_vm_is_left_alone_and_its_staleness_named() {
    let phase = through_lock(PLAIN, None);
    let (phase, _) = start_step(PLAIN, phase, StartEvent::Discriminated { running: true });
    let (phase, action) = start_step(PLAIN, phase, StartEvent::Built { store_path: "/nix/store/new".to_owned(), merged: None });
    assert!(matches!(action, StartAction::ReadRunningBuild));
    let (_, action) = start_step(PLAIN, phase, StartEvent::RunningBuild(Some("/nix/store/old".to_owned())));
    assert_eq!(
        notes_of(action),
        "`api` is running an older build and was left alone\nthe new build is ready; `viv start --rebuild` replaces the running VM with it\n"
    );
    let phase = through_lock(PLAIN, None);
    let (phase, _) = start_step(PLAIN, phase, StartEvent::Discriminated { running: true });
    let (phase, _) = start_step(PLAIN, phase, StartEvent::Built { store_path: "/nix/store/new".to_owned(), merged: None });
    let (_, action) = start_step(PLAIN, phase, StartEvent::RunningBuild(Some("/nix/store/new".to_owned())));
    assert_eq!(notes_of(action), "`api` is already running\n");
}

#[test]
fn a_rebuild_stops_the_running_vm_before_launching() {
    let flags = StartFlags { rebuild: true, ..PLAIN };
    let phase = through_lock(flags, None);
    let (phase, _) = start_step(flags, phase, StartEvent::Discriminated { running: true });
    let (phase, action) = start_step(flags, phase, StartEvent::Built { store_path: "/nix/store/new".to_owned(), merged: None });
    assert!(matches!(action, StartAction::Stop));
    let (phase, action) = start_step(flags, phase, StartEvent::Passed);
    assert!(matches!(action, StartAction::ReadHost));
    let (_, action) = start_step(flags, phase, StartEvent::Host { total_bytes: Some(64 << 30), parallelism: Some(8) });
    assert!(matches!(action, StartAction::Launch { ref runtime, .. } if runtime.unit == "vivarium-api-default.service"));
}

#[test]
fn no_rebuild_boots_the_last_build_or_refuses_without_one() {
    let flags = StartFlags { no_rebuild: true, ..PLAIN };
    let phase = through_lock(flags, None);
    let (_, action) = start_step(flags, phase, StartEvent::Discriminated { running: true });
    assert_eq!(notes_of(action), "`api` is already running\n");
    let phase = through_lock(flags, None);
    let (phase, action) = start_step(flags, phase, StartEvent::Discriminated { running: false });
    assert!(matches!(action, StartAction::ReadLastBuild));
    let (_, action) = start_step(flags, phase, StartEvent::LastBuild(None));
    assert_eq!(failure_id(action), ("no-build".to_owned(), ExitKind::DataErr));
    let phase = through_lock(flags, None);
    let (phase, _) = start_step(flags, phase, StartEvent::Discriminated { running: false });
    let (_, action) = start_step(flags, phase, StartEvent::LastBuild(Some("/nix/store/last".to_owned())));
    assert!(matches!(action, StartAction::ReadHost));
}

#[test]
fn a_named_generation_is_refused_while_running_and_must_still_exist() {
    let flags = StartFlags { generation: Some(3), ..PLAIN };
    let phase = through_lock(flags, None);
    let (_, action) = start_step(flags, phase, StartEvent::Discriminated { running: true });
    assert_eq!(failure_id(action), ("generation-swap".to_owned(), ExitKind::TempFail));
    let phase = through_lock(flags, None);
    let (phase, action) = start_step(flags, phase, StartEvent::Discriminated { running: false });
    assert!(matches!(action, StartAction::ReadGeneration { number: 3 }));
    let (_, action) = start_step(flags, phase, StartEvent::Generation(RetainedLink::Missing));
    assert_eq!(failure_id(action), ("no-build".to_owned(), ExitKind::DataErr));
    let phase = through_lock(flags, None);
    let (phase, _) = start_step(flags, phase, StartEvent::Discriminated { running: false });
    let link = RetainedLink::Target { path: "/nix/store/three".to_owned(), exists: true };
    let (phase, action) = start_step(flags, phase, StartEvent::Generation(link));
    assert!(matches!(action, StartAction::ReadHost));
    let (_, action) = start_step(flags, phase, StartEvent::Host { total_bytes: None, parallelism: None });
    assert!(matches!(action, StartAction::Launch { ref store_path, .. } if store_path == "/nix/store/three"));
}

#[test]
fn any_failure_ends_the_pipeline_with_it() {
    let (phase, _) = start_begin();
    let failure = vivarium::trim::require_running(vivarium::lifecycle::State::Built).err().unwrap();
    let (phase, action) = start_step(PLAIN, phase, StartEvent::Failed(failure));
    assert!(matches!(phase, StartPhase::Done));
    assert_eq!(failure_id(action).0, "trim-not-running");
}

fn a_boot() -> vivarium::reuse::BootMetadata {
    vivarium::reuse::BootMetadata {
        schema_version: 3,
        boot_identity: "boot-a".to_owned(),
        sandbox_id: "api".to_owned(),
        target: "default".to_owned(),
        backend: "cloud-hypervisor".to_owned(),
        workspace_paths: vec!["/home/me/api".to_owned()],
    }
}

#[test]
fn a_launch_that_left_no_usable_record_is_an_unusable_boot() {
    let runtime = Runtime::for_report("/run/user/1000/vivarium", "api", "default");
    let boot = launched_boot(&runtime, BootRecord::Ready(a_boot()), 3).ok().unwrap();
    assert_eq!(boot.boot_identity, "boot-a");
    for record in [BootRecord::Absent, BootRecord::Unreadable] {
        match launched_boot(&runtime, record, 3).err().unwrap() {
            Failure::Diagnosed { diagnostic, code } => {
                assert_eq!(diagnostic.id, "boot-record-unreadable");
                assert_eq!(code, ExitKind::Unavailable);
                assert!(matches!(diagnostic.locus, Locus::File(ref p) if p == "/run/user/1000/vivarium/api/default/boot.json"));
            }
            Failure::Usage(_) => panic!("not a usage error"),
        }
    }
    match launched_boot(&runtime, BootRecord::Skewed(2), 3).err().unwrap() {
        Failure::Diagnosed { diagnostic, code } => {
            assert_eq!(diagnostic.id, "boot-record-skew");
            assert_eq!(code, ExitKind::Config);
            assert_eq!(
                diagnostic.why,
                "the record carries launch schema 2 and this viv speaks 3, so it cannot authorize a session against the running VM"
            );
        }
        Failure::Usage(_) => panic!("not a usage error"),
    }
}

fn parts(failure: &Failure) -> (String, String, ExitKind, Option<String>) {
    match failure {
        Failure::Diagnosed { diagnostic, code } => (
            diagnostic.id.clone(),
            match &diagnostic.locus {
                Locus::Named(n) => n.clone(),
                Locus::File(p) => p.clone(),
            },
            *code,
            diagnostic.hint.clone(),
        ),
        Failure::Usage(_) => panic!("not a usage error"),
    }
}

#[test]
fn a_contended_lock_is_a_retry_and_any_other_lock_error_is_io() {
    let runtime = Runtime::for_report("/run/v", "api", "default");
    let (id, at, code, hint) = parts(&lock_failure(&runtime, LockError::Contended));
    assert_eq!((id.as_str(), at.as_str(), code), ("startup-contended", "/run/v/api/default/lock", ExitKind::TempFail));
    assert_eq!(hint.as_deref(), Some("retry once the other process has finished starting the VM"));
    let (id, at, code, _) = parts(&lock_failure(&runtime, LockError::DirectoryUnusable("denied".to_owned())));
    assert_eq!((id.as_str(), at.as_str(), code), ("runtime-directory-unusable", "/run/v/api/default", ExitKind::IoErr));
    let (id, _, code, hint) = parts(&lock_failure(&runtime, LockError::Failed("EIO".to_owned())));
    assert_eq!((id.as_str(), code, hint), ("lock-unusable", ExitKind::IoErr, None));
    let (id, _, code, _) = parts(&lock_failure(&runtime, LockError::Unopenable("EROFS".to_owned())));
    assert_eq!((id.as_str(), code), ("lock-unusable", ExitKind::IoErr));
}

#[test]
fn a_build_names_the_last_path_it_printed() {
    assert_eq!(runner_attribute("/tmp/flake", "x86_64-linux"), "/tmp/flake#runner.x86_64-linux");
    let path = build_outcome(true, b"/nix/store/aaa-runner\n/nix/store/bbb-runner  \n", "").ok().unwrap();
    assert_eq!(path, "/nix/store/bbb-runner");
    let (id, _, code, _) = parts(&build_outcome(true, b"", "").err().unwrap());
    assert_eq!((id.as_str(), code), ("build-empty", ExitKind::Software));
    let (id, _, code, _) = parts(&build_outcome(true, b"\n   \n", "").err().unwrap());
    assert_eq!((id.as_str(), code), ("build-empty", ExitKind::Software));
    match build_outcome(false, b"/nix/store/x\n", "\nerror: builder failed\n").err().unwrap() {
        Failure::Diagnosed { diagnostic, code } => {
            assert_eq!(diagnostic.id, "build-failed");
            assert_eq!(diagnostic.why, "error: builder failed");
            assert_eq!(code, ExitKind::Software);
        }
        Failure::Usage(_) => panic!("not a usage error"),
    }
    let (id, at, code, _) = parts(&build_unavailable("No such file".to_owned()));
    assert_eq!((id.as_str(), at.as_str(), code), ("nix-unavailable", "guest build", ExitKind::Software));
}

fn to_decision(rt: &Runtime) -> EnsurePhase {
    let (phase, action) = ensure_begin();
    assert!(matches!(action, EnsureAction::Resolve));
    let (phase, action) = ensure_step(rt, 3, phase, EnsureEvent::Resolved);
    assert!(matches!(action, EnsureAction::Lock));
    let (phase, action) = ensure_step(rt, 3, phase, EnsureEvent::Passed);
    assert!(matches!(action, EnsureAction::Decide));
    phase
}

#[test]
fn a_reusable_vm_is_used_without_a_preflight_build_or_boot() {
    let rt = Runtime::for_report("/run/v", "api", "default");
    let phase = to_decision(&rt);
    let (phase, action) = ensure_step(&rt, 3, phase, EnsureEvent::Decided(ReuseAction::Reuse(a_boot())));
    assert!(matches!(phase, EnsurePhase::Done));
    assert!(matches!(action, EnsureAction::Finish(Ok(ref boot)) if boot.boot_identity == "boot-a"));
}

#[test]
fn a_dead_vm_is_cleared_then_a_new_one_built_launched_and_read_back() {
    let rt = Runtime::for_report("/run/v", "api", "default");
    let phase = to_decision(&rt);
    let (phase, action) = ensure_step(&rt, 3, phase, EnsureEvent::Decided(ReuseAction::RepairThenColdStart));
    assert!(matches!(action, EnsureAction::Repair));
    let (phase, action) = ensure_step(&rt, 3, phase, EnsureEvent::Passed);
    assert!(matches!(action, EnsureAction::Preflight));
    let (phase, action) = ensure_step(&rt, 3, phase, EnsureEvent::Passed);
    assert!(matches!(action, EnsureAction::EvaluateAndBuild));
    let merged = Some(DeclaredResources { mem_mib: Some(3072), vcpu: None });
    let (phase, action) = ensure_step(&rt, 3, phase, EnsureEvent::Built { store_path: "/nix/store/r".to_owned(), merged });
    assert!(matches!(action, EnsureAction::ReadHost));
    let (phase, action) = ensure_step(&rt, 3, phase, EnsureEvent::Host { total_bytes: None, parallelism: Some(6) });
    assert!(matches!(action, EnsureAction::Launch { ref store_path, resources } if store_path == "/nix/store/r" && resources.mem_mib == 3072));
    let (phase, action) = ensure_step(&rt, 3, phase, EnsureEvent::Passed);
    assert!(matches!(action, EnsureAction::ReadRecord));
    let (_, action) = ensure_step(&rt, 3, phase, EnsureEvent::Record(BootRecord::Unreadable));
    match action {
        EnsureAction::Finish(Err(Failure::Diagnosed { diagnostic, code })) => {
            assert_eq!(diagnostic.id, "boot-record-unreadable");
            assert_eq!(code, ExitKind::Unavailable);
        }
        _ => panic!("a launch with no record is an unusable boot"),
    }
}

#[test]
fn a_refused_reuse_is_the_answer() {
    let rt = Runtime::for_report("/run/v", "api", "default");
    let phase = to_decision(&rt);
    let refusal = lock_failure(&rt, LockError::Contended);
    let (_, action) = ensure_step(&rt, 3, phase, EnsureEvent::Decided(ReuseAction::Refuse(refusal)));
    assert!(matches!(action, EnsureAction::Finish(Err(_))));
    let phase = to_decision(&rt);
    let (_, action) = ensure_step(&rt, 3, phase, EnsureEvent::Decided(ReuseAction::ColdStart));
    assert!(matches!(action, EnsureAction::Preflight));
}

#[test]
fn an_unchanged_build_is_not_a_new_generation() {
    assert!(records_generation(None, "/nix/store/a"));
    assert!(records_generation(Some("/nix/store/a"), "/nix/store/b"));
    assert!(!records_generation(Some("/nix/store/a"), "/nix/store/a"));
}

#[test]
fn a_failed_handoff_points_at_the_units_journal() {
    assert!(handoff_outcome(true, "ignored", "vivarium-api-default.service").is_ok());
    let (id, at, code, hint) = parts(&handoff_outcome(false, "child exited\n", "vivarium-api-default.service").err().unwrap());
    assert_eq!((id.as_str(), at.as_str(), code), ("start-failed", "guest launch", ExitKind::Unavailable));
    assert_eq!(hint.as_deref(), Some("`journalctl --user -u vivarium-api-default.service` carries the supervisor's own diagnostic"));
    let (id, at, code, _) = parts(&handoff_unavailable("/usr/bin/viv", "ENOENT".to_owned()));
    assert_eq!((id.as_str(), at.as_str(), code), ("launcher-unavailable", "/usr/bin/viv", ExitKind::Software));
}

#[test]
fn a_runtime_whose_control_socket_cannot_fit_is_refused_before_the_lock() {
    let (phase, _) = start_begin();
    let (phase, _) = start_step(PLAIN, phase, StartEvent::Resolved { sandbox: "api".to_owned(), declared: None });
    let root = format!("/{}", "r".repeat(100));
    let (phase, _) = start_step(PLAIN, phase, StartEvent::Preflighted { runtime_root: root });
    let (phase, action) = start_step(PLAIN, phase, StartEvent::Passed);
    assert!(matches!(phase, StartPhase::Done));
    assert_eq!(failure_id(action), ("runtime-socket-path-too-long".to_owned(), ExitKind::Config));
}
