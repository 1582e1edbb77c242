use vivarium::exit::ExitKind;
use vivarium::failure::Failure;
use vivarium::lifecycle::{Runtime, State};
use vivarium::reclaim::{balloon_arguments, resize_outcome, ResizeResult, live_boot, reclaim_begin, reclaim_step, ReclaimAction, ReclaimEvent, ReclaimPhase};
use vivarium::reuse::{BootMetadata, BootRecord};
use vivarium::trim::{ControlCallError, MemoryTrimReading};

const MIB: u64 = 1024 * 1024;

fn runtime() -> Runtime {
    Runtime::for_report("/run/v", "api", "default")
}

fn boot() -> BootMetadata {
    BootMetadata {
        schema_version: 3,
        boot_identity: "boot-a".to_owned(),
        sandbox_id: "api".to_owned(),
        target: "default".to_owned(),
        backend: "cloud-hypervisor".to_owned(),
        workspace_paths: Vec::new(),
    }
}

fn to_guest(to_mib: Option<u64>, before: u64, declared_mib: u64) -> ReclaimPhase {
    let rt = runtime();
    let (phase, action) = reclaim_begin();
    assert!(matches!(action, ReclaimAction::Resolve));
    let (phase, action) = reclaim_step(to_mib, 3, &rt, phase, ReclaimEvent::Resolved { sandbox: "api".to_owned() });
    assert!(matches!(action, ReclaimAction::Lock { ref sandbox } if sandbox == "api"));
    let (phase, action) = reclaim_step(to_mib, 3, &rt, phase, ReclaimEvent::Passed);
    assert!(matches!(action, ReclaimAction::ReadState));
    let (phase, action) = reclaim_step(to_mib, 3, &rt, phase, ReclaimEvent::State(State::Running));
    assert!(matches!(action, ReclaimAction::ReadBoot));
    let (phase, action) = reclaim_step(to_mib, 3, &rt, phase, ReclaimEvent::Boot(BootRecord::Ready(boot())));
    assert!(matches!(action, ReclaimAction::ReadCharge { warning: None }));
    let (phase, action) = reclaim_step(to_mib, 3, &rt, phase, ReclaimEvent::Charge(Some(before)));
    assert!(matches!(action, ReclaimAction::ReadSpec));
    let (phase, action) = reclaim_step(to_mib, 3, &rt, phase, ReclaimEvent::Spec { declared_mib });
    assert!(matches!(action, ReclaimAction::AskMemory));
    phase
}

fn id_of(action: ReclaimAction) -> (String, ExitKind) {
    match action {
        ReclaimAction::Finish(Err(Failure::Diagnosed { diagnostic, code })) => (diagnostic.id.clone(), code),
        _ => panic!("the rung was expected to fail"),
    }
}

#[test]
fn an_inflated_balloon_is_always_deflated_before_the_after_reading() {
    let rt = runtime();
    let phase = to_guest(None, 3000 * MIB, 4096);
    let report = Ok((2048 * MIB, 1536 * MIB));
    let (phase, action) = reclaim_step(None, 3, &rt, phase, ReclaimEvent::Report(report));
    assert!(matches!(action, ReclaimAction::Resize { balloon_mib: 3072, warning: None }));
    let (phase, action) = reclaim_step(None, 3, &rt, phase, ReclaimEvent::Passed);
    assert!(matches!(action, ReclaimAction::SleepThenPoll));
    let (phase, action) = reclaim_step(None, 3, &rt, phase, ReclaimEvent::Poll(Some(2000 * MIB)));
    assert!(matches!(action, ReclaimAction::SleepThenPoll));
    let (phase, action) = reclaim_step(None, 3, &rt, phase, ReclaimEvent::Poll(Some(1990 * MIB)));
    assert!(matches!(action, ReclaimAction::Resize { balloon_mib: 0, warning: None }));
    let (phase, action) = reclaim_step(None, 3, &rt, phase, ReclaimEvent::Passed);
    assert!(matches!(action, ReclaimAction::ReadCharge { warning: None }));
    let (phase, action) = reclaim_step(None, 3, &rt, phase, ReclaimEvent::Charge(Some(2100 * MIB)));
    assert!(matches!(phase, ReclaimPhase::Done));
    match action {
        ReclaimAction::Finish(Ok((sandbox, reading))) => {
            assert_eq!(sandbox, "api");
            let MemoryTrimReading { target_mib, before, after } = reading;
            assert_eq!((target_mib, before, after), (1024, 3000 * MIB, 2100 * MIB));
        }
        _ => panic!("the rung completes"),
    }
}

#[test]
fn the_settle_wait_ends_at_its_deadline_or_an_unreadable_poll_and_still_deflates() {
    let rt = runtime();
    let phase = to_guest(Some(1024), 3000 * MIB, 4096);
    let (phase, _) = reclaim_step(Some(1024), 3, &rt, phase, ReclaimEvent::Report(Err(ControlCallError::Unreachable)));
    let (phase, _) = reclaim_step(Some(1024), 3, &rt, phase, ReclaimEvent::Passed);
    let (_, action) = reclaim_step(Some(1024), 3, &rt, phase, ReclaimEvent::Deadline);
    assert!(matches!(action, ReclaimAction::Resize { balloon_mib: 0, .. }));
    let phase = to_guest(Some(1024), 3000 * MIB, 4096);
    let (phase, _) = reclaim_step(Some(1024), 3, &rt, phase, ReclaimEvent::Report(Err(ControlCallError::Unreachable)));
    let (phase, _) = reclaim_step(Some(1024), 3, &rt, phase, ReclaimEvent::Passed);
    let (_, action) = reclaim_step(Some(1024), 3, &rt, phase, ReclaimEvent::Poll(None));
    assert!(matches!(action, ReclaimAction::Resize { balloon_mib: 0, .. }));
}

#[test]
fn an_explicit_target_below_the_guest_floor_is_raised_with_a_warning() {
    let rt = runtime();
    let phase = to_guest(Some(100), 3000 * MIB, 4096);
    let (_, action) = reclaim_step(Some(100), 3, &rt, phase, ReclaimEvent::Report(Ok((2048 * MIB, 1536 * MIB))));
    match action {
        ReclaimAction::Resize { balloon_mib, warning } => {
            assert_eq!(balloon_mib, 4096 - 512);
            assert_eq!(warning.as_deref(), Some("raising the target from 100 MiB to the guest's own floor of 512 MiB"));
        }
        _ => panic!("a raised target still inflates"),
    }
}

#[test]
fn a_target_at_the_ceiling_inflates_nothing() {
    let rt = runtime();
    let phase = to_guest(Some(8192), 3000 * MIB, 4096);
    let (phase, action) = reclaim_step(Some(8192), 3, &rt, phase, ReclaimEvent::Report(Ok((2048 * MIB, 1536 * MIB))));
    assert!(matches!(action, ReclaimAction::ReadCharge { warning: None }));
    let (_, action) = reclaim_step(Some(8192), 3, &rt, phase, ReclaimEvent::Charge(None));
    assert_eq!(id_of(action), ("memory-unreadable".to_owned(), ExitKind::IoErr));
}

#[test]
fn a_derived_target_needs_the_guests_report() {
    let rt = runtime();
    let phase = to_guest(None, 3000 * MIB, 4096);
    let (_, action) = reclaim_step(None, 3, &rt, phase, ReclaimEvent::Report(Err(ControlCallError::Protocol)));
    assert_eq!(id_of(action), ("control-socket-failed".to_owned(), ExitKind::IoErr));
}

#[test]
fn a_reclaim_needs_a_running_vm_and_its_boot_record() {
    let rt = runtime();
    let (phase, _) = reclaim_begin();
    let (phase, _) = reclaim_step(None, 3, &rt, phase, ReclaimEvent::Resolved { sandbox: "api".to_owned() });
    let (phase, _) = reclaim_step(None, 3, &rt, phase, ReclaimEvent::Passed);
    let (_, action) = reclaim_step(None, 3, &rt, phase, ReclaimEvent::State(State::Built));
    assert_eq!(id_of(action), ("trim-not-running".to_owned(), ExitKind::TempFail));
    match live_boot(&rt, BootRecord::Unreadable, 3).err().unwrap() {
        Failure::Diagnosed { diagnostic, code } => {
            assert_eq!(diagnostic.id, "boot-record-unreadable");
            assert_eq!(code, ExitKind::IoErr);
        }
        Failure::Usage(_) => panic!("not a usage error"),
    }
    let skewed = live_boot(&rt, BootRecord::Skewed(1), 3).err().unwrap();
    assert_eq!(skewed.code(), ExitKind::Config);
}

#[test]
fn the_balloon_is_sized_in_mib_over_the_api_socket() {
    assert_eq!(balloon_arguments("/run/v/api.sock", 3072), vec!["--api-socket", "/run/v/api.sock", "resize", "--balloon", "3072M"]);
    assert_eq!(balloon_arguments("/s", 0)[4], "0M");
}

#[test]
fn a_resize_the_backend_cannot_take_is_unavailable_and_a_tool_that_cannot_run_is_io() {
    assert!(resize_outcome("/nix/store/ch/bin/ch-remote", "/run/v/api.sock", ResizeResult::Ran { success: true, stderr: Vec::new() }).is_ok());
    let cases = [
        (ResizeResult::SocketGone, "api-socket-unavailable", ExitKind::Unavailable),
        (ResizeResult::SpawnFailed("ENOENT".to_owned()), "balloon-resize-failed", ExitKind::IoErr),
        (ResizeResult::Ran { success: false, stderr: b" refused \n".to_vec() }, "balloon-resize-refused", ExitKind::Unavailable),
    ];
    for (result, id, code) in cases {
        match resize_outcome("/nix/store/ch/bin/ch-remote", "/run/v/api.sock", result).err().unwrap() {
            Failure::Diagnosed { diagnostic, code: c } => {
                assert_eq!(diagnostic.id, id);
                assert_eq!(c, code);
                if id == "balloon-resize-refused" {
                    assert_eq!(diagnostic.why, "refused");
                }
            }
            Failure::Usage(_) => panic!("not a usage error"),
        }
    }
}
