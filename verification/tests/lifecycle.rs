use vivarium::exit::ExitKind;
use vivarium::failure::{diagnosed, record_failure, Locus, Namespace};
use vivarium::grammar::Output;
use vivarium::lifecycle::{
    admission_for, admission_warning, classify, effective_resources, grace_seconds, host_mem_mib,
    host_vcpu, liveness_of, ownership_of, parse_memory_current, parse_unit_memory_show,
    pid_of_record, presence_of, recorded_pid_liveness, volume_directory, Admission,
    DeclaredResources, FleetUse, Presence, ProcessProbe, Runtime, State, StopRung,
};
use vivarium::paths::XdgRoots;

const GIB: u64 = 1024 * 1024 * 1024;

#[test]
fn admit_walks_the_admission_table() {
    assert_eq!(admission_for(Some(GIB - 1), None), Admission::Refuse);
    assert_eq!(admission_for(Some(GIB - 1), Some(0)), Admission::Refuse);
    assert_eq!(admission_for(Some(GIB), Some(0)), Admission::Proceed);
    assert_eq!(admission_for(Some(3 * GIB), Some(2 * GIB)), Admission::Proceed);
    assert_eq!(admission_for(Some(3 * GIB), Some(2 * GIB + 1)), Admission::Warn);
    assert_eq!(admission_for(Some(GIB), None), Admission::Proceed);
    assert_eq!(admission_for(None, None), Admission::Proceed);
    assert_eq!(admission_for(None, Some(u64::MAX)), Admission::Proceed);
    assert_eq!(admission_for(Some(u64::MAX), Some(u64::MAX)), Admission::Warn);
}

#[test]
fn admission_warning_is_the_spec_shape_without_trim() {
    let fleet = FleetUse {
        running: 4,
        measured: 4,
        complete: true,
        measured_bytes: Some(213 * 1024 * 1024 * 1024 / 10),
    };
    let warning = admission_warning(&fleet, Some(312 * 1024 * 1024 * 1024 / 10), "api-gateway");
    let expected = [
        "warning: 4 project VMs are running and using 21.3 GiB of 31.2 GiB host memory.\n",
        "         Starting `api-gateway` may push the host into swap.\n",
        "         viv status -g     see what is running\n",
        "         viv stop          stop a project you are done with",
    ]
    .concat();
    assert_eq!(warning, expected);
    assert!(!warning.contains("viv trim"));
}

#[test]
fn admission_warning_marks_a_partial_sum_as_a_lower_bound() {
    let fleet = FleetUse {
        running: 2,
        measured: 1,
        complete: true,
        measured_bytes: Some(2 * GIB),
    };
    let warning = admission_warning(&fleet, Some(8 * GIB), "api-gateway");
    assert!(warning.starts_with(
        "warning: 2 project VMs are running and using at least 2 GiB of 8 GiB host memory."
    ));
    let one = FleetUse {
        running: 1,
        measured: 1,
        complete: true,
        measured_bytes: Some(GIB),
    };
    assert!(admission_warning(&one, Some(8 * GIB), "api-gateway")
        .starts_with("warning: 1 project VM is running and using 1 GiB of 8 GiB"));
}

#[test]
fn admission_warning_marks_an_incomplete_scan_as_a_lower_bound() {
    let fleet = FleetUse {
        running: 2,
        measured: 2,
        complete: false,
        measured_bytes: Some(3 * GIB),
    };
    assert!(admission_warning(&fleet, Some(8 * GIB), "api-gateway")
        .starts_with("warning: 2 project VMs are running and using at least 3 GiB of 8 GiB"));
}

#[test]
fn admission_warning_drops_an_unknown_total() {
    let fleet = FleetUse {
        running: 3,
        measured: 3,
        complete: true,
        measured_bytes: Some(4 * GIB),
    };
    assert!(admission_warning(&fleet, None, "api-gateway")
        .starts_with("warning: 3 project VMs are running and using 4 GiB of host memory."));
}

#[test]
fn an_unaskable_unit_is_not_a_stopped_one() {
    for state in ["active", "reloading", "refreshing", "activating", "deactivating"] {
        assert_eq!(ownership_of(state), Some(true), "{state} should own a VM");
    }
    for state in ["inactive", "failed"] {
        assert_eq!(ownership_of(state), Some(false), "{state} should be dead");
    }
    for state in ["", "   ", "maintenance", "something-new"] {
        assert_eq!(ownership_of(state), None, "{state:?} should be undecided");
    }
}

#[test]
fn a_pid_record_that_names_no_process_is_not_alive() {
    for raw in ["0", "0\n", "-1", "", "  ", "not-a-pid"] {
        assert_eq!(pid_of_record(raw), None, "a vm.pid of {raw:?} named a process");
        assert_eq!(
            recorded_pid_liveness(Some(raw)),
            None,
            "a vm.pid of {raw:?} was read as evidence"
        );
    }
    assert_eq!(recorded_pid_liveness(None), None, "a missing vm.pid was read as evidence");

    assert_eq!(recorded_pid_liveness(Some("1\n")), Some(true));
    assert_eq!(
        recorded_pid_liveness(Some("2147483647\n")),
        Some(false),
        "a pid no process can hold must read as a positive death"
    );
}

#[test]
fn a_probe_answer_is_three_valued() {
    assert_eq!(liveness_of(ProcessProbe::Alive), Some(true));
    assert_eq!(liveness_of(ProcessProbe::NotPermitted), Some(true));
    assert_eq!(liveness_of(ProcessProbe::Gone), Some(false));
    assert_eq!(liveness_of(ProcessProbe::Unknown), None);
}

#[test]
fn records_are_discriminated_by_the_process_and_the_owning_unit() {
    assert_eq!(classify(true, true, true, Some("active")), State::Running);
    assert_eq!(classify(true, true, true, Some("deactivating")), State::Stopping);
    assert_eq!(classify(true, true, true, Some("activating")), State::Starting);
    assert_eq!(classify(true, false, true, Some("activating")), State::Starting);
    assert_eq!(classify(true, true, true, None), State::Failed);
    assert_eq!(classify(true, true, true, Some("inactive")), State::Failed);
    assert_eq!(classify(true, true, true, Some("failed")), State::Failed);
    assert_eq!(classify(true, true, false, Some("inactive")), State::Failed);
    assert_eq!(classify(true, false, false, None), State::Failed);
}

#[test]
fn a_unit_in_transition_outranks_the_resting_states() {
    for has_build in [true, false] {
        assert_eq!(classify(false, has_build, false, Some("activating")), State::Starting);
        assert_eq!(classify(false, has_build, false, Some("deactivating")), State::Stopping);
    }
    assert_eq!(classify(false, true, false, Some("inactive")), State::Built);
    assert_eq!(classify(false, true, false, None), State::Built);
    assert_eq!(classify(false, false, false, None), State::Absent);
    assert_eq!(classify(false, false, false, Some("failed")), State::Absent);
}

#[test]
fn every_state_spells_itself_as_the_specification_does() {
    let rows = [
        (State::Absent, "absent"),
        (State::Built, "built"),
        (State::Starting, "starting"),
        (State::Running, "running"),
        (State::Stopping, "stopping"),
        (State::Failed, "failed"),
    ];
    for (state, spelling) in rows {
        assert_eq!(state.as_str(), spelling);
    }
}

#[test]
fn the_grace_period_follows_the_flags() {
    assert_eq!(grace_seconds(false, None), Some(10));
    assert_eq!(grace_seconds(true, None), Some(0));
    assert_eq!(grace_seconds(true, Some(0)), Some(0));
    assert_eq!(grace_seconds(false, Some(30)), Some(30));
    assert_eq!(grace_seconds(false, Some(-1)), None);
}

#[test]
fn the_first_failure_is_the_sweeps_result() {
    let failed = |id: &'static str| {
        diagnosed(
            Namespace::Vm,
            id,
            "the VM could not be confirmed stopped".to_owned(),
            Locus::Named("guest teardown".to_owned()),
            "trial fixture".to_owned(),
            ExitKind::Unavailable,
        )
    };
    let mut first = None;
    record_failure(&mut first, failed("stop-unconfirmed"));
    record_failure(&mut first, failed("teardown-incomplete"));
    let kept = first.unwrap();
    assert!(
        kept.render(Output::Json).contains("stop-unconfirmed"),
        "a later failure must never displace the first"
    );
}

#[test]
fn presence_requires_positive_evidence_of_death() {
    assert_eq!(presence_of(Some(false), None), Presence::Dead);
    assert_eq!(presence_of(Some(false), Some(true)), Presence::Dead);
    assert_eq!(presence_of(None, Some(false)), Presence::Dead);
    assert_eq!(presence_of(Some(true), Some(false)), Presence::Dead);
    assert_eq!(presence_of(Some(true), Some(true)), Presence::Live);
    assert_eq!(presence_of(None, Some(true)), Presence::Live);
    assert_eq!(presence_of(None, None), Presence::Indeterminate);
    assert_eq!(presence_of(Some(true), None), Presence::Indeterminate);
}

#[test]
fn rung_spellings_are_the_specified_set() {
    assert_eq!(StopRung::Agent.as_str(), "agent");
    assert_eq!(StopRung::PowerSignal.as_str(), "power-signal");
    assert_eq!(StopRung::HardPoweroff.as_str(), "hard-poweroff");
}

#[test]
fn the_unit_name_matches_the_launcher() {
    let runtime = Runtime::locate("/run/user/1000/vivarium", "api", "default").unwrap();
    assert_eq!(runtime.unit, "vivarium-api-default.service");
    assert_eq!(runtime.directory, "/run/user/1000/vivarium/api/default");
    assert_eq!(runtime.control_socket(), "/run/user/1000/vivarium/api/default/control.sock");
    assert_eq!(runtime.vm_pid(), "/run/user/1000/vivarium/api/default/vm.pid");
    assert_eq!(runtime.boot_json(), "/run/user/1000/vivarium/api/default/boot.json");
}

#[test]
fn control_socket_path_enforces_the_linux_sun_path_limit() {
    const SUFFIX: &str = "/api/default/control.sock";
    let root_of = |total: usize| {
        let root_len = total - SUFFIX.len();
        format!("/{}", "r".repeat(root_len - 1))
    };
    assert!(Runtime::locate(&root_of(107), "api", "default").is_ok());
    let failure = Runtime::locate(&root_of(108), "api", "default").err().unwrap();
    assert_eq!(failure.code(), ExitKind::Config);
    assert!(format!("{failure:?}").contains("runtime-socket-path-too-long"));
}

#[test]
fn declared_ceilings_win_and_undeclared_ones_come_from_the_host() {
    let total = Some(32 * GIB);
    let parallelism = Some(12);
    let both = DeclaredResources { mem_mib: Some(8192), vcpu: Some(6) };
    let resolved = effective_resources(Some(both), total, parallelism);
    assert_eq!(resolved.mem_mib, 8192);
    assert_eq!(resolved.vcpu, 6);

    let memory_only = DeclaredResources { mem_mib: Some(8192), vcpu: None };
    assert_eq!(
        effective_resources(Some(memory_only), total, parallelism).vcpu,
        host_vcpu(parallelism)
    );
    assert_eq!(effective_resources(None, total, parallelism).mem_mib, host_mem_mib(total));
}

#[test]
fn host_resolved_ceilings_stay_inside_the_specified_clamps() {
    for total in [None, Some(0), Some(3 * GIB), Some(9 * GIB + 5), Some(64 * GIB), Some(u64::MAX)] {
        let memory = host_mem_mib(total);
        assert!(
            (4 * 1024..=16 * 1024).contains(&memory),
            "{memory} MiB is outside the 4-16 GiB clamp"
        );
        assert_eq!(memory % 1024, 0);
    }
    assert_eq!(host_mem_mib(Some(10 * GIB)), 5 * 1024);
    for parallelism in [None, Some(1), Some(5), Some(64)] {
        let vcpu = host_vcpu(parallelism);
        assert!((1..=8).contains(&vcpu), "{vcpu} vcpu is outside the cap");
    }
}

#[test]
fn volumes_live_under_the_project_subtree() {
    let roots = XdgRoots {
        config: "/c".to_owned(),
        data: "/d".to_owned(),
        state: "/s".to_owned(),
        cache: "/k".to_owned(),
    };
    assert_eq!(volume_directory(&roots, "api", "default"), "/s/projects/api/default/volumes");
}

#[test]
fn memory_current_collapses_unavailable_and_keeps_zero() {
    assert_eq!(parse_memory_current("2254857830"), Some(2_254_857_830));
    assert_eq!(parse_memory_current("0"), Some(0));
    assert_eq!(parse_memory_current(""), None);
    assert_eq!(parse_memory_current("[not set]"), None);
    assert_eq!(parse_memory_current("18446744073709551615"), None);
    assert_eq!(parse_memory_current("weather"), None);
}

#[test]
fn unit_memory_show_reads_by_key() {
    let shown = [
        "ControlGroup=/user.slice/vivarium.slice/vivarium-api-default.service\n",
        "MemoryCurrent=1048576\n",
    ]
    .concat();
    let (memory, cgroup) = parse_unit_memory_show(&shown);
    assert_eq!(memory, Some(1_048_576));
    assert_eq!(
        cgroup.as_deref(),
        Some("/user.slice/vivarium.slice/vivarium-api-default.service")
    );
    assert_eq!(parse_unit_memory_show("MemoryCurrent=[not set]\nControlGroup=\n"), (None, None));
}
