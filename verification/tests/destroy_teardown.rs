use vivarium::destroy::{
    destroy_begin, destroy_step, read_failure, removal_outcome, DestroyAction, DestroyEvent, DestroyPhase, Plan, RemovalResult,
};
use vivarium::exit::ExitKind;
use vivarium::failure::Failure;
use vivarium::lifecycle::State;
use vivarium::paths::XdgRoots;
use vivarium::stop::TeardownReading;

const RUNTIME: &str = "/run/v/p1/default";

fn roots() -> XdgRoots {
    XdgRoots { config: "/c".to_owned(), state: "/s".to_owned(), data: "/d".to_owned(), cache: "/k".to_owned() }
}

fn removed_path(action: &DestroyAction) -> String {
    match action {
        DestroyAction::Remove { path } => path.clone(),
        _ => panic!("a removal was expected"),
    }
}

fn code_of(action: DestroyAction) -> (String, ExitKind) {
    match action {
        DestroyAction::Finish(Err(Failure::Diagnosed { diagnostic, code })) => (diagnostic.id.clone(), code),
        _ => panic!("the destroy was expected to fail"),
    }
}

#[test]
fn a_declined_confirmation_destroys_nothing() {
    let plan = Plan::new(&roots(), "p1", false);
    let (phase, action) = destroy_begin(false);
    assert!(matches!(action, DestroyAction::Confirm));
    let (phase, action) = destroy_step(&plan, RUNTIME, phase, DestroyEvent::Confirmed(false));
    assert!(matches!(phase, DestroyPhase::Done));
    match action {
        DestroyAction::Finish(Ok(success)) => {
            assert_eq!(success.stdout, "");
            assert_eq!(success.notes, "nothing was destroyed\n");
        }
        _ => panic!("declining is a success that destroys nothing"),
    }
}

#[test]
fn a_running_vm_comes_down_before_the_plan_is_removed_and_the_lock_survives() {
    let plan = Plan::new(&roots(), "p1", false);
    let (phase, action) = destroy_begin(true);
    assert!(matches!(action, DestroyAction::Lock));
    let (phase, action) = destroy_step(&plan, RUNTIME, phase, DestroyEvent::Passed);
    assert!(matches!(action, DestroyAction::Discriminate));
    let (phase, action) = destroy_step(&plan, RUNTIME, phase, DestroyEvent::Discriminated(State::Running));
    assert!(matches!(action, DestroyAction::Stop));
    let (phase, action) = destroy_step(&plan, RUNTIME, phase, DestroyEvent::Passed);
    assert!(matches!(action, DestroyAction::ReadPlan));
    let (mut phase, mut action) = destroy_step(&plan, RUNTIME, phase, DestroyEvent::Found(Vec::new()));
    let mut removed = Vec::new();
    while let DestroyAction::Remove { .. } = action {
        removed.push(removed_path(&action));
        let step = destroy_step(&plan, RUNTIME, phase, DestroyEvent::Removed(RemovalResult::Done));
        phase = step.0;
        action = step.1;
    }
    assert_eq!(removed, vec!["/d/projects/p1/default/last-build", "/d/projects/p1/default/running-build", "/s/projects/p1"]);
    assert!(matches!(action, DestroyAction::ListRuntime));
    let listing = TeardownReading::Entries(vec!["vm.pid".to_owned(), "lock".to_owned(), "boot.json".to_owned()]);
    let (mut phase, mut action) = destroy_step(&plan, RUNTIME, phase, DestroyEvent::RuntimeListing(listing));
    let mut cleared = Vec::new();
    while let DestroyAction::Remove { .. } = action {
        cleared.push(removed_path(&action));
        let step = destroy_step(&plan, RUNTIME, phase, DestroyEvent::Removed(RemovalResult::Done));
        phase = step.0;
        action = step.1;
    }
    assert_eq!(cleared, vec!["/run/v/p1/default/vm.pid", "/run/v/p1/default/boot.json"]);
    assert!(matches!(action, DestroyAction::Forget));
    let (phase, action) = destroy_step(&plan, RUNTIME, phase, DestroyEvent::Passed);
    assert!(matches!(phase, DestroyPhase::Done));
    assert!(matches!(action, DestroyAction::Finish(Ok(ref s)) if s.stdout.is_empty() && s.notes.is_empty()));
}

#[test]
fn a_vm_at_rest_is_not_stopped_and_a_gone_runtime_is_done() {
    let plan = Plan::new(&roots(), "p1", true);
    let (phase, _) = destroy_begin(true);
    let (phase, _) = destroy_step(&plan, RUNTIME, phase, DestroyEvent::Passed);
    let (phase, action) = destroy_step(&plan, RUNTIME, phase, DestroyEvent::Discriminated(State::Built));
    assert!(matches!(action, DestroyAction::ReadPlan));
    let found = vec![vec!["volumes".to_owned(), "nix-profile".to_owned()], vec!["default".to_owned(), "other".to_owned()]];
    let (mut phase, mut action) = destroy_step(&plan, RUNTIME, phase, DestroyEvent::Found(found));
    let mut removed = Vec::new();
    while let DestroyAction::Remove { .. } = action {
        removed.push(removed_path(&action));
        let step = destroy_step(&plan, RUNTIME, phase, DestroyEvent::Removed(RemovalResult::Done));
        phase = step.0;
        action = step.1;
    }
    assert!(removed.contains(&"/s/projects/p1/default/nix-profile".to_owned()));
    assert!(removed.contains(&"/s/projects/p1/other".to_owned()));
    assert!(!removed.iter().any(|p| p.ends_with("/volumes")));
    let (_, action) = destroy_step(&plan, RUNTIME, phase, DestroyEvent::RuntimeListing(TeardownReading::Gone));
    assert!(matches!(action, DestroyAction::Forget));
}

#[test]
fn a_removal_that_fails_ends_the_destroy_with_its_cost() {
    let plan = Plan::new(&roots(), "p1", false);
    let (phase, _) = destroy_begin(true);
    let (phase, _) = destroy_step(&plan, RUNTIME, phase, DestroyEvent::Passed);
    let (phase, _) = destroy_step(&plan, RUNTIME, phase, DestroyEvent::Discriminated(State::Absent));
    let (phase, _) = destroy_step(&plan, RUNTIME, phase, DestroyEvent::Found(Vec::new()));
    let (_, action) = destroy_step(&plan, RUNTIME, phase, DestroyEvent::Removed(RemovalResult::Denied("EACCES".to_owned())));
    assert_eq!(code_of(action), ("teardown-removal".to_owned(), ExitKind::NoPerm));
    assert!(removal_outcome("/x", RemovalResult::Done).is_ok());
    let failed = removal_outcome("/x", RemovalResult::Failed("EIO".to_owned())).err().unwrap();
    assert_eq!(failed.code(), ExitKind::IoErr);
    assert_eq!(read_failure("/x", "EIO".to_owned()).code(), ExitKind::IoErr);
    let (phase, _) = destroy_begin(true);
    let (phase, _) = destroy_step(&plan, RUNTIME, phase, DestroyEvent::Passed);
    let (phase, _) = destroy_step(&plan, RUNTIME, phase, DestroyEvent::Discriminated(State::Absent));
    let (mut phase, mut action) = destroy_step(&plan, RUNTIME, phase, DestroyEvent::Found(Vec::new()));
    while let DestroyAction::Remove { .. } = action {
        let step = destroy_step(&plan, RUNTIME, phase, DestroyEvent::Removed(RemovalResult::Done));
        phase = step.0;
        action = step.1;
    }
    let (_, action) = destroy_step(&plan, RUNTIME, phase, DestroyEvent::RuntimeListing(TeardownReading::Unreadable("EACCES".to_owned())));
    assert_eq!(code_of(action), ("teardown-unreadable".to_owned(), ExitKind::IoErr));
}
