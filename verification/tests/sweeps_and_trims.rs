use vivarium::exit::ExitKind;
use vivarium::failure::Failure;
use vivarium::grammar::Output;
use vivarium::lifecycle::State;
use vivarium::records::{trim_json, volume_trim_json, volume_trim_record, TrimmedVolume};
use vivarium::render::{stop_json, stop_row};
use vivarium::status::{runtime_json, RuntimeReadings};
use vivarium::stop::{confirm_teardown, TeardownReading};
use vivarium::sweep::{stop_all_result, sweep_acts_on, trim_result, SweepEntry};
use vivarium::trim::{control_failure, require_running, ControlCallError, MemoryTrimReading};

fn id_of(failure: &Failure) -> String {
    match failure {
        Failure::Diagnosed { diagnostic, .. } => diagnostic.id.clone(),
        Failure::Usage(error) => panic!("a usage error: {}", error.message),
    }
}

fn not_running() -> Failure {
    require_running(State::Built).err().unwrap()
}

fn unreachable_agent() -> Failure {
    control_failure(ControlCallError::Unreachable, "trim")
}

fn volume(name: &str, before: u64, after: u64) -> TrimmedVolume {
    TrimmedVolume {
        record: format!("{{\"name\":\"{name}\"}}"),
        before,
        after,
    }
}

#[test]
fn a_stop_record_names_the_state_and_the_rung() {
    assert_eq!(
        stop_row("api", "built", Some("shutdown")),
        "{\"manifest\":\"api\",\"rung\":\"shutdown\",\"state\":\"built\"}"
    );
    assert_eq!(stop_row("api", "absent", None), "{\"manifest\":\"api\",\"rung\":null,\"state\":\"absent\"}");
    assert_eq!(stop_json("api", "absent", None), format!("{}\n", stop_row("api", "absent", None)));
}

#[test]
fn the_runtime_object_keeps_every_key() {
    let readings = RuntimeReadings {
        mem_used_bytes: Some(1024),
        disk_allocated_bytes: None,
        disk_virtual_bytes: Some(2048),
        sessions: Some(2),
        pressure_some_avg60: Some("0.5".to_owned()),
    };
    assert_eq!(
        runtime_json(&readings),
        "{\"disk_allocated_bytes\":null,\"disk_virtual_bytes\":2048,\"mem_used_bytes\":1024,\"pressure_some_avg60\":0.5,\"sessions\":2}"
    );
}

#[test]
fn a_stop_sweep_acts_only_on_sandboxes_that_are_not_at_rest() {
    assert!(!sweep_acts_on(State::Absent));
    assert!(!sweep_acts_on(State::Built));
    assert!(sweep_acts_on(State::Running));
    assert!(sweep_acts_on(State::Failed));
    assert!(sweep_acts_on(State::Stopping));
}

#[test]
fn a_clean_sweep_lists_the_stopped_sandboxes() {
    let entries = vec![
        SweepEntry::Stopped(stop_row("a", "built", Some("shutdown"))),
        SweepEntry::Resting,
        SweepEntry::Stopped(stop_row("b", "built", Some("kill"))),
    ];
    let success = stop_all_result(entries, Output::Json).ok().unwrap();
    assert_eq!(
        success.stdout,
        "{\"projects\":[{\"manifest\":\"a\",\"rung\":\"shutdown\",\"state\":\"built\"},{\"manifest\":\"b\",\"rung\":\"kill\",\"state\":\"built\"}]}\n"
    );
    let empty = stop_all_result(vec![SweepEntry::Resting], Output::Json).ok().unwrap();
    assert_eq!(empty.stdout, "{\"projects\":[]}\n");
    let human = stop_all_result(vec![SweepEntry::Stopped(stop_row("a", "built", None))], Output::Human).ok().unwrap();
    assert_eq!(human.stdout, "");
}

#[test]
fn a_sweep_that_failed_anywhere_answers_with_its_first_failure() {
    let entries = vec![
        SweepEntry::Stopped(stop_row("a", "built", Some("shutdown"))),
        SweepEntry::Failed(not_running()),
        SweepEntry::Failed(unreachable_agent()),
    ];
    let failure = stop_all_result(entries, Output::Json).err().unwrap();
    assert_eq!(id_of(&failure), "trim-not-running");
    assert_eq!(failure.code(), ExitKind::TempFail);
}

#[test]
fn the_volume_trim_record_sums_the_rows() {
    let rows = vec![volume("cache", 100, 40), volume("data", 10, 30)];
    assert_eq!(
        volume_trim_record(&rows),
        "{\"reclaimed_bytes\":60,\"volumes\":[{\"name\":\"cache\"},{\"name\":\"data\"}]}"
    );
    assert_eq!(volume_trim_json(&Vec::new()), "{\"reclaimed_bytes\":0,\"volumes\":[]}\n");
}

#[test]
fn the_trim_record_nests_each_rung_verbatim_with_no_total() {
    let reading = MemoryTrimReading { target_mib: 512, before: 2048, after: 1024 };
    let rows = vec![volume("cache", 100, 40)];
    assert_eq!(
        trim_json("api", &reading, &rows),
        "{\"disk\":{\"reclaimed_bytes\":60,\"volumes\":[{\"name\":\"cache\"}]},\"manifest\":\"api\",\"memory\":{\"mem_used_after_bytes\":1024,\"mem_used_before_bytes\":2048,\"reclaimed_bytes\":1024,\"target_mib\":512}}\n"
    );
}

#[test]
fn a_trim_run_answers_with_the_first_rung_that_failed() {
    let reading = MemoryTrimReading { target_mib: 512, before: 2048, after: 1024 };
    let both_failed = trim_result(Err(not_running()), Err(unreachable_agent()), Output::Json).err().unwrap();
    assert_eq!(id_of(&both_failed), "trim-not-running");
    let disk_failed = trim_result(Ok(("api".to_owned(), reading)), Err(unreachable_agent()), Output::Json).err().unwrap();
    assert_eq!(id_of(&disk_failed), "control-socket-unavailable");
    let ok = trim_result(Ok(("api".to_owned(), reading)), Ok(vec![volume("cache", 1, 1)]), Output::Json).ok().unwrap();
    assert!(ok.stdout.starts_with("{\"disk\":{\"reclaimed_bytes\":0,"));
    let human = trim_result(Ok(("api".to_owned(), reading)), Ok(Vec::new()), Output::Human).ok().unwrap();
    assert_eq!(human.stdout, "");
}

#[test]
fn a_completed_stop_leaves_at_most_the_startup_lock() {
    assert!(confirm_teardown("/run/v/api/default", TeardownReading::Gone).is_ok());
    assert!(confirm_teardown("/run/v/api/default", TeardownReading::Entries(vec!["lock".to_owned()])).is_ok());
    assert!(confirm_teardown("/run/v/api/default", TeardownReading::Entries(Vec::new())).is_ok());
    let residue = vec!["lock".to_owned(), "vm.pid".to_owned(), "boot.json".to_owned()];
    let failure = confirm_teardown("/run/v/api/default", TeardownReading::Entries(residue)).err().unwrap();
    match failure {
        Failure::Diagnosed { diagnostic, code } => {
            assert_eq!(diagnostic.id, "teardown-incomplete");
            assert_eq!(diagnostic.why, "2 entries survived the allowlisted cleanup");
            assert_eq!(code, ExitKind::Unavailable);
        }
        Failure::Usage(_) => panic!("not a usage error"),
    }
    let failure = confirm_teardown("/run/v/api/default", TeardownReading::Unreadable("EACCES".to_owned())).err().unwrap();
    assert_eq!(id_of(&failure), "teardown-unconfirmed");
    assert_eq!(failure.code(), ExitKind::Unavailable);
}
