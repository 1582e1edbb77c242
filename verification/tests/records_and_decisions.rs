use vivarium::admission::{admission_note, admission_refusal, retained_boot, RetainedLink};
use vivarium::agent::CredentialId;
use vivarium::exit::ExitKind;
use vivarium::failure::{Failure, Locus, Namespace};
use vivarium::fleet::{host_json, row_json, FleetRow};
use vivarium::grammar::Output;
use vivarium::lifecycle::{DeclaredResources, FleetUse, Presence, Resources, Runtime, State, StopRung};
use vivarium::manifest::{egress_mode, manifest_list_json, manifest_show_human, manifest_show_json, Egress, EgressMode, Manifest};
use vivarium::paths::XdgRoots;
use vivarium::provenance::{
    config_sources_human, defect_failure, tie_notes, Analysis, Conflict, ConflictKind, Contributor, Irreconcilable,
    ValueView,
};
use vivarium::records::{
    binding_json, destroy_json, gc_json, generations_prune_json, generations_switch_json, memory_trim_json,
    volume_prune_json,
};
use vivarium::reuse::{reuse_step, BootMetadata, BootRecord, ReuseAction, ReuseContext, ReuseEvent, ReusePhase};
use vivarium::sources::{agent_source_failure, source_failure, AgentSourceDefect, MountSourceDefect};
use vivarium::status::{status_human, status_json, Report, RuntimeReadings};
use vivarium::stop::{contains, ladder_step, stop_step, LadderAction, LadderEvent, LadderPhase, StopAction, StopEvent, StopPhase};
use vivarium::connection::{
    connection_step, marker_is_ours, trim_body, trim_request_valid, trim_token, AgentReply, ClientFrame, ConnectionAction,
    ConnectionEvent, ConnectionPhase,
};
use vivarium::timestamps::parse_rfc3339_utc;
use vivarium::trim::MemoryTrimReading;
use vivarium::update::{derive_rows, notes_for, override_refusal, RootPin};
use vivarium::views::ManifestRow;
use vivarium::workspace::{workspace_defect_failure, WorkspaceDefect, WorkspaceDefectKind};

const GIB: u64 = 1024 * 1024 * 1024;

/// The parts of a diagnosed failure: namespace, id, what, where, why, hint, code.
fn parts(failure: &Failure) -> (Namespace, String, String, String, String, Option<String>, ExitKind) {
    match failure {
        Failure::Diagnosed { diagnostic, code } => (
            diagnostic.namespace,
            diagnostic.id.clone(),
            diagnostic.what.clone(),
            match &diagnostic.locus {
                Locus::Named(name) => name.clone(),
                Locus::File(path) => path.clone(),
            },
            diagnostic.why.clone(),
            diagnostic.hint.clone(),
            *code,
        ),
        Failure::Usage(error) => panic!("a usage error: {}", error.message),
    }
}

fn contributor(layer: &str, kind: &str, priority: u64, value: &str, winner: bool) -> Contributor {
    Contributor {
        layer: layer.to_owned(),
        kind: kind.to_owned(),
        priority,
        value: value.to_owned(),
        winner,
    }
}

fn analysis() -> Analysis {
    Analysis {
        values: vec![
            ValueView {
                key: "resources.vcpu".to_owned(),
                effective: Some("4".to_owned()),
                list: false,
                contributors: vec![
                    contributor("piece:rust", "piece", 1000, "2", false),
                    contributor("manifest", "manifest", 100, "4", true),
                ],
            },
            ValueView { key: "env.EMPTY".to_owned(), effective: None, list: false, contributors: Vec::new() },
            ValueView {
                key: "mounts".to_owned(),
                effective: None,
                list: true,
                contributors: vec![contributor("piece:a", "piece", 100, "[]", false)],
            },
        ],
        conflicts: vec![Conflict {
            kind: ConflictKind::Tie,
            key: "resources.vcpu".to_owned(),
            layers: vec!["piece:rust".to_owned(), "manifest".to_owned()],
            evidence: Vec::new(),
        }],
        irreconcilable: Vec::new(),
    }
}

#[test]
fn sources_list_every_layer_under_the_effective_value() {
    let expected = [
        "resources.vcpu = 4\n",
        "  piece:rust       piece     1000       2            (shadowed)\n",
        "  manifest         manifest  100        4            (winner)\n",
        "\n",
        "mounts = (no value)\n",
        "  piece:a          piece     100        []           (merged)\n",
        "\n",
    ]
    .concat();
    assert_eq!(config_sources_human(&analysis()), expected);
}

#[test]
fn a_tie_names_its_contributors_and_the_remedy() {
    let expected = [
        "[tie] resources.vcpu   (equal priority — evaluation will fail)\n",
        "  piece:rust       piece     1000       2\n",
        "  manifest         manifest  100        4\n",
        "  hint: a shared piece should propose with mkDefault so your manifest can\n",
        "        decide; failing that, drop one piece or override through extends\n",
    ]
    .concat();
    assert_eq!(tie_notes(&analysis()), expected);
}

#[test]
fn the_first_content_defect_is_the_refusal() {
    let failure = defect_failure(&analysis()).unwrap();
    let (namespace, id, what, locus, why, hint, code) = parts(&failure);
    assert_eq!(namespace, Namespace::Merge);
    assert_eq!(id, "equal-priority-tie");
    assert_eq!(what, "`resources.vcpu` has two definitions at the same priority");
    assert_eq!(locus, "merged configuration");
    assert_eq!(why, "piece:rust, manifest each set it, and priority never breaks a tie");
    assert!(hint.unwrap().starts_with("a shared piece should propose with mkDefault"));
    assert_eq!(code, ExitKind::DataErr);

    let clean = Analysis { values: Vec::new(), conflicts: Vec::new(), irreconcilable: Vec::new() };
    assert!(defect_failure(&clean).is_none());
    let irreconcilable = Analysis {
        values: Vec::new(),
        conflicts: Vec::new(),
        irreconcilable: vec![Irreconcilable { what: "two images".to_owned(), why: "both layers set one".to_owned() }],
    };
    let (_, id, what, _, why, _, code) = parts(&defect_failure(&irreconcilable).unwrap());
    assert_eq!((id.as_str(), what.as_str(), why.as_str()), ("irreconcilable", "two images", "both layers set one"));
    assert_eq!(code, ExitKind::DataErr);
}

fn report(state: State) -> Report {
    Report {
        manifest: Some("api".to_owned()),
        state,
        reason: None,
        stale: false,
        store_path: Some("/nix/store/abc-runner".to_owned()),
        generation: Some(3),
        uptime_seconds: Some(134),
        resources: Some(Resources { mem_mib: 8192, vcpu: 4 }),
        runtime: RuntimeReadings {
            mem_used_bytes: Some(2_254_857_830),
            disk_allocated_bytes: Some(512 * 1024 * 1024),
            disk_virtual_bytes: Some(8 * GIB),
            sessions: Some(2),
            pressure_some_avg60: Some("0.4".to_owned()),
        },
        record_skew: None,
    }
}

#[test]
fn status_reads_as_a_labelled_record() {
    let expected = [
        "manifest  api\n",
        "state     ● running\n",
        "build     /nix/store/abc-runner\n",
        "uptime    2m 14s\n",
        "memory    2.1 GiB used / 8 GiB ceiling\n",
        "vcpu      4\n",
        "sessions  2\n",
        "disk      512 MiB allocated / 8 GiB virtual\n",
    ]
    .concat();
    assert_eq!(status_human(&report(State::Running), 1), expected);
    let mut stale = report(State::Running);
    stale.stale = true;
    assert!(status_human(&stale, 1)
        .ends_with("\n! this VM is stale: a newer build exists. `viv start --rebuild` replaces it\n"));
}

#[test]
fn status_json_keeps_every_key() {
    let expected = [
        "{\"generation\":3,\"manifest\":\"api\",\"reason\":null,\"record_schema_skew\":null,",
        "\"resources\":{\"mem_mib\":8192,\"vcpu\":4},\"runtime\":{\"disk_allocated_bytes\":536870912,",
        "\"disk_virtual_bytes\":8589934592,\"mem_used_bytes\":2254857830,\"pressure_some_avg60\":0.4,",
        "\"sessions\":2},\"stale\":false,\"state\":\"running\",\"store_path\":\"/nix/store/abc-runner\",",
        "\"uptime_seconds\":134}\n",
    ]
    .concat();
    assert_eq!(status_json(&report(State::Running), 1), expected);
    let mut skewed = report(State::Running);
    skewed.record_skew = Some(2);
    assert!(status_json(&skewed, 1).contains("\"record_schema_skew\":{\"binary\":1,\"record\":2}"));
    assert!(status_human(&skewed, 1).contains("launch schema 2; this viv speaks 1."));
}

fn manifest() -> Manifest {
    Manifest {
        image: "dev".to_owned(),
        pieces: vec!["rust".to_owned(), "node".to_owned()],
        extends: Some("base".to_owned()),
        resources: Some(DeclaredResources { mem_mib: Some(8192), vcpu: None }),
        egress: Some(Egress { mode: Some(EgressMode::Allowlist), allow: vec!["github.com".to_owned()] }),
    }
}

#[test]
fn a_manifest_shows_in_its_own_language() {
    let expected = [
        "manifest: api\npath: /c/manifests/api.toml\nimage: dev\n",
        "pieces: rust, node\nextends: base\n",
        "\n[resources]\nmem_mib = 8192\n",
        "\n[egress]\nmode = \"allowlist\"\nallow = [\"github.com\"]\n",
    ]
    .concat();
    assert_eq!(manifest_show_human("api", "/c/manifests/api.toml", &manifest()), expected);
    assert_eq!(egress_mode(EgressMode::Open), "open");
}

#[test]
fn a_manifest_record_keeps_both_objects() {
    let expected = [
        "{\"egress\":{\"allow\":[\"github.com\"],\"mode\":\"allowlist\"},\"extends\":\"base\",",
        "\"image\":\"dev\",\"manifest\":\"api\",\"path\":\"/c/manifests/api.toml\",",
        "\"pieces\":[\"rust\",\"node\"],\"resources\":{\"mem_mib\":8192,\"vcpu\":null}}\n",
    ]
    .concat();
    assert_eq!(manifest_show_json("api", "/c/manifests/api.toml", &manifest()), expected);
    let bare = Manifest { image: "dev".to_owned(), pieces: Vec::new(), extends: None, resources: None, egress: None };
    assert_eq!(
        manifest_show_json("x", "/p", &bare),
        "{\"egress\":{\"allow\":[],\"mode\":null},\"extends\":null,\"image\":\"dev\",\"manifest\":\"x\",\"path\":\"/p\",\"pieces\":[],\"resources\":{\"mem_mib\":null,\"vcpu\":null}}\n"
    );
    let rows = vec![ManifestRow { name: "x".to_owned(), path: "/p".to_owned(), manifest: bare }];
    assert_eq!(
        manifest_list_json(&rows),
        "{\"manifests\":[{\"image\":\"dev\",\"name\":\"x\",\"path\":\"/p\",\"pieces\":[]}]}\n"
    );
}

#[test]
fn a_mount_source_refusal_reads_against_the_declared_spelling() {
    let failure = source_failure("${PROJECTS}/data", MountSourceDefect::UnsetVariable { variable: "PROJECTS".to_owned() });
    let (namespace, id, what, locus, why, hint, code) = parts(&failure);
    assert_eq!(namespace, Namespace::Host);
    assert_eq!(id, "mount-source-unset-variable");
    assert_eq!(what, "a declared mount's source names `${PROJECTS}`, which this host does not set");
    assert_eq!(locus, "declared mounts");
    assert_eq!(why, "`${PROJECTS}/data` cannot resolve while `PROJECTS` is unset (ADR-0020)");
    assert_eq!(
        hint.as_deref(),
        Some("set `PROJECTS` or declare the source another way; `viv config sources` names the layer that declares this mount")
    );
    assert_eq!(code, ExitKind::Config);
    let missing = source_failure("~/gone", MountSourceDefect::Missing { expanded: "/home/a/gone".to_owned() });
    let (_, id, _, locus, why, _, _) = parts(&missing);
    assert_eq!(id, "mount-source-missing");
    assert_eq!(locus, "/home/a/gone");
    assert_eq!(why, "`~/gone` expanded to `/home/a/gone`, which is missing (ADR-0020)");
}

#[test]
fn a_credential_channel_refusal_names_the_channel() {
    let failure = agent_source_failure(
        CredentialId::Ssh,
        AgentSourceDefect::NotOwned { path: "/run/user/1000/ssh".to_owned(), owner: 0, uid: 1000 },
    );
    let (_, id, what, locus, why, hint, code) = parts(&failure);
    assert_eq!(id, "agent-source-not-owned");
    assert_eq!(what, "the declared `ssh` credential channel resolves to another user's socket");
    assert_eq!(locus, "/run/user/1000/ssh");
    assert_eq!(why, "the socket is owned by uid 0, not this user (1000); forwarding it would relay someone else's agent");
    assert_eq!(hint.as_deref(), Some("`viv config sources` names the layer that declares this channel"));
    assert_eq!(code, ExitKind::Config);
}

#[test]
fn a_workspace_defect_refuses_with_its_own_id() {
    let defect = WorkspaceDefect {
        declared: "~/src".to_owned(),
        kind: WorkspaceDefectKind::NotDirectory { expanded: "/home/a/src".to_owned() },
    };
    let (namespace, id, what, locus, why, hint, code) = parts(&workspace_defect_failure(&defect));
    assert_eq!(namespace, Namespace::Host);
    assert_eq!(id, "workspace-source-not-directory");
    assert_eq!(what, "a declared workspace is not a directory");
    assert_eq!(locus, "/home/a/src");
    assert_eq!(why, "`~/src` expanded to `/home/a/src`, which is not a directory");
    assert_eq!(
        hint.as_deref(),
        Some("declare a directory in `[[workspaces]] source`; a single file is a `[[mounts]]` row")
    );
    assert_eq!(code, ExitKind::Config);
}

fn unit_state(text: &str, deadline_passed: bool) -> StopEvent {
    StopEvent::UnitState { stdout: Some(text.as_bytes().to_vec()), deadline_passed }
}

#[test]
fn the_manager_rungs_walk_from_the_stop_to_the_kill() {
    let unit = "vivarium-api-default.service";
    let (phase, action) = stop_step(StopPhase::Issuing, unit, StopEvent::Issued { success: true, stderr: Vec::new() });
    assert_eq!(phase, StopPhase::Polling);
    assert!(matches!(action, StopAction::ReadState));
    let (phase, action) = stop_step(phase, unit, unit_state("deactivating\n", false));
    assert_eq!(phase, StopPhase::Polling);
    assert!(matches!(action, StopAction::SleepThenReadState));
    let (phase, action) = stop_step(phase, unit, unit_state("inactive\n", false));
    assert_eq!(phase, StopPhase::Finished);
    assert!(matches!(action, StopAction::Finish(Ok(Some(StopRung::PowerSignal)))));

    let (phase, action) = stop_step(StopPhase::Polling, unit, unit_state("active", true));
    assert_eq!(phase, StopPhase::Killing);
    assert!(matches!(action, StopAction::Kill));
    let (phase, _) = stop_step(phase, unit, StopEvent::Killed { success: true });
    assert_eq!(phase, StopPhase::Reaping { left: 50 });
    let (_, action) = stop_step(phase, unit, StopEvent::UnitState { stdout: None, deadline_passed: true });
    assert!(matches!(action, StopAction::Finish(Ok(Some(StopRung::HardPoweroff)))));

    let (phase, _) = stop_step(StopPhase::Killing, unit, StopEvent::Killed { success: false });
    assert_eq!(phase, StopPhase::Confirming);
    let (_, action) = stop_step(phase, unit, unit_state("active", true));
    match action {
        StopAction::Finish(Err(failure)) => {
            let (_, id, _, _, why, _, code) = parts(&failure);
            assert_eq!(id, "stop-unconfirmed");
            assert_eq!(why, "`vivarium-api-default.service` is still active after a hard poweroff");
            assert_eq!(code, ExitKind::Unavailable);
        }
        _ => panic!("an unconfirmed stop must fail"),
    }
}

#[test]
fn a_unit_already_gone_is_the_idempotent_stop() {
    let unit = "u.service";
    let gone = StopEvent::Issued { success: false, stderr: b"Failed to stop u.service: Unit u.service not loaded.\n".to_vec() };
    assert!(matches!(stop_step(StopPhase::Issuing, unit, gone).1, StopAction::Finish(Ok(None))));
    let refused = StopEvent::Issued { success: false, stderr: b"  Access denied \n".to_vec() };
    match stop_step(StopPhase::Issuing, unit, refused).1 {
        StopAction::Finish(Err(failure)) => {
            let (_, id, _, _, why, _, _) = parts(&failure);
            assert_eq!((id.as_str(), why.as_str()), ("stop-failed", "Access denied"));
        }
        _ => panic!("a refused stop must fail"),
    }
    assert!(contains("abc not found", "not found"));
    assert!(!contains("not foun", "not found"));
}

fn context() -> ReuseContext {
    ReuseContext {
        runtime: Runtime::locate("/run/user/1000/vivarium", "api", "default").unwrap(),
        sandbox_id: "api".to_owned(),
        workspace_paths: vec!["/home/a/api".to_owned()],
        backend: "cloud-hypervisor".to_owned(),
        schema: 1,
        agent_timeout_seconds: 30,
    }
}

fn boot(sandbox: &str) -> BootMetadata {
    BootMetadata {
        schema_version: 1,
        boot_identity: "b".to_owned(),
        sandbox_id: sandbox.to_owned(),
        target: "default".to_owned(),
        backend: "cloud-hypervisor".to_owned(),
        workspace_paths: vec!["/home/a/api".to_owned()],
    }
}

#[test]
fn a_live_vm_is_reused_and_a_dead_one_repaired() {
    let c = context();
    let looked = ReuseEvent::Looked { socket_exists: true, record: BootRecord::Ready(boot("api")) };
    let (phase, action) = reuse_step(ReusePhase::Start, looked, &c);
    assert!(matches!(action, ReuseAction::Ping { patient: false }));
    let (_, action) = reuse_step(phase, ReuseEvent::Pinged(true), &c);
    assert!(matches!(action, ReuseAction::Reuse(_)));

    let looked = ReuseEvent::Looked { socket_exists: false, record: BootRecord::Absent };
    let (phase, action) = reuse_step(ReusePhase::Start, looked, &c);
    assert!(matches!(action, ReuseAction::AskPresence));
    assert!(matches!(reuse_step(phase, ReuseEvent::Presence(Presence::Dead), &c).1, ReuseAction::ColdStart));

    let looked = ReuseEvent::Looked { socket_exists: true, record: BootRecord::Unreadable };
    let (phase, _) = reuse_step(ReusePhase::Start, looked, &c);
    assert!(matches!(
        reuse_step(phase, ReuseEvent::Presence(Presence::Dead), &c).1,
        ReuseAction::RepairThenColdStart
    ));
}

#[test]
fn a_confusing_live_vm_is_refused_never_torn_down() {
    let c = context();
    let looked = ReuseEvent::Looked { socket_exists: true, record: BootRecord::Ready(boot("other")) };
    match reuse_step(ReusePhase::Start, looked, &c).1 {
        ReuseAction::Refuse(failure) => {
            let (_, id, _, locus, why, _, _) = parts(&failure);
            assert_eq!(id, "foreign-boot-record");
            assert_eq!(locus, "/run/user/1000/vivarium/api/default/boot.json");
            assert!(why.starts_with("it names another sandbox or target, so reusing it"));
        }
        _ => panic!("a foreign record must be refused"),
    }
    let looked = ReuseEvent::Looked { socket_exists: true, record: BootRecord::Ready(boot("api")) };
    let (phase, _) = reuse_step(ReusePhase::Start, looked, &c);
    let (phase, action) = reuse_step(phase, ReuseEvent::Pinged(false), &c);
    assert!(matches!(action, ReuseAction::AskPresence));
    let (phase, action) = reuse_step(phase, ReuseEvent::Presence(Presence::Live), &c);
    assert!(matches!(action, ReuseAction::Ping { patient: true }));
    match reuse_step(phase, ReuseEvent::Pinged(false), &c).1 {
        ReuseAction::Refuse(failure) => {
            let (_, id, _, _, why, _, code) = parts(&failure);
            assert_eq!(id, "agent-unreachable");
            assert_eq!(
                why,
                "the control socket did not complete a handshake within 30s, and the VM's own process is still alive under its unit"
            );
            assert_eq!(code, ExitKind::Unavailable);
        }
        _ => panic!("a silent live VM must be refused"),
    }
    let looked = ReuseEvent::Looked { socket_exists: true, record: BootRecord::Skewed(2) };
    let (phase, _) = reuse_step(ReusePhase::Start, looked, &c);
    match reuse_step(phase, ReuseEvent::Presence(Presence::Indeterminate), &c).1 {
        ReuseAction::Refuse(failure) => {
            let (_, id, _, _, why, _, _) = parts(&failure);
            assert_eq!(id, "vm-presence-undecided");
            assert!(why.starts_with("its boot record was written by another vivarium version, the recorded process"));
        }
        _ => panic!("an undecided VM must be refused"),
    }
}

#[test]
fn admission_refuses_below_the_reserve_and_warns_past_it() {
    let refusal = admission_refusal(Some(512 * 1024 * 1024)).unwrap();
    let (_, id, what, _, _, _, code) = parts(&refusal);
    assert_eq!(id, "memory-reserve");
    assert_eq!(what, "512 MiB of host memory is available, below the 1 GiB admission reserve");
    assert_eq!(code, ExitKind::Unavailable);
    assert!(admission_refusal(Some(GIB)).is_none());
    assert!(admission_refusal(None).is_none());
    let fleet = FleetUse { running: 1, measured: 1, complete: true, measured_bytes: Some(3 * GIB) };
    let note = admission_note(Some(3 * GIB), Some(8 * GIB), Some(fleet), "api").unwrap();
    assert!(note.starts_with("warning: 1 project VM is running and using 3 GiB of 8 GiB host memory."));
    assert!(admission_note(Some(8 * GIB), Some(8 * GIB), Some(fleet), "api").is_none());
    assert!(admission_note(Some(3 * GIB), None, None, "api").is_none());
}

#[test]
fn a_named_generation_boots_only_when_retained_and_stopped() {
    let (_, id, _, _, _, hint, code) = parts(&retained_boot(2, true, RetainedLink::Missing).unwrap_err());
    assert_eq!((id.as_str(), code), ("generation-swap", ExitKind::TempFail));
    assert_eq!(hint.as_deref(), Some("`viv stop` first, then `viv start --generation 2`"));
    let (_, id, what, _, _, _, code) = parts(&retained_boot(2, false, RetainedLink::Missing).unwrap_err());
    assert_eq!((id.as_str(), what.as_str(), code), ("no-build", "generation 2 is not retained", ExitKind::DataErr));
    let gone = RetainedLink::Target { path: "/nix/store/x".to_owned(), exists: false };
    let (_, _, what, locus, _, _, _) = parts(&retained_boot(2, false, gone).unwrap_err());
    assert_eq!((what.as_str(), locus.as_str()), ("generation 2's build output is gone from the store", "/nix/store/x"));
    let kept = RetainedLink::Target { path: "/nix/store/y".to_owned(), exists: true };
    assert_eq!(retained_boot(2, false, kept).ok(), Some("/nix/store/y".to_owned()));
}

#[test]
fn timestamps_read_as_seconds_since_the_epoch() {
    assert_eq!(parse_rfc3339_utc("1970-01-01T00:00:00Z"), Some(0));
    assert_eq!(parse_rfc3339_utc("2000-01-01T00:00:00Z"), Some(946_684_800));
    assert_eq!(parse_rfc3339_utc("2001-09-09T01:46:40Z"), Some(1_000_000_000));
    assert_eq!(parse_rfc3339_utc("2024-02-29T12:00:00Z"), Some(1_709_208_000));
    assert_eq!(parse_rfc3339_utc("2023-02-29T12:00:00Z"), None);
    assert_eq!(parse_rfc3339_utc("1969-12-31T23:59:59Z"), None);
    assert_eq!(parse_rfc3339_utc("not a date"), None);
    assert_eq!(parse_rfc3339_utc("2000-01-01 00:00:00Z"), None);
}

fn pin(fingerprint: &str, display: Option<&str>) -> RootPin {
    RootPin { fingerprint: fingerprint.to_owned(), display: display.map(str::to_owned) }
}

#[test]
fn update_rows_report_the_requested_and_whatever_moved() {
    let before = vec![("microvm".to_owned(), pin("m1", Some("m@1"))), ("nixpkgs".to_owned(), pin("n1", Some("n@1")))];
    let after = vec![
        ("microvm".to_owned(), pin("m2", Some("m@2"))),
        ("my-base".to_owned(), pin("b1", None)),
        ("nixpkgs".to_owned(), pin("n1", Some("n@1"))),
    ];
    let (records, human) = derive_rows(&before, &after, &vec!["nixpkgs".to_owned()]);
    assert_eq!(human, vec![
        vec!["microvm", "m@1", "m@2", "moved"],
        vec!["my-base", "-", "-", "moved"],
        vec!["nixpkgs", "n@1", "n@1", "unchanged"],
    ]);
    assert_eq!(records[2], "{\"after\":\"n@1\",\"before\":\"n@1\",\"changed\":false,\"name\":\"nixpkgs\"}");
    let (_, everything) = derive_rows(&after, &after, &Vec::new());
    assert_eq!(everything.len(), 3);
    assert!(everything.iter().all(|row| row[3] == "unchanged"));
}

#[test]
fn update_notes_and_the_override_refusal() {
    assert_eq!(
        notes_for(true, "/d/lock", Some("my-base")),
        "created the pin for this target: /d/lock\nthe base `my-base` carries its own `flake.lock`; the pins it holds re-seed every re-resolution and move only when that file does\n"
    );
    assert_eq!(notes_for(false, "/d/lock", None), "");
    let (namespace, id, _, locus, why, _, code) = parts(&override_refusal("/team/flake.lock", "/d/flake.lock"));
    assert_eq!((namespace, id.as_str(), locus.as_str(), code), (Namespace::Lock, "override-in-force", "/team/flake.lock", ExitKind::Config));
    assert_eq!(why, "`/team/flake.lock` is read-only to the tool and shadows `/d/flake.lock`, which this update would have written");
}

#[test]
fn the_machine_records_sort_their_keys() {
    let roots = XdgRoots { config: "/c".to_owned(), data: "/d".to_owned(), state: "/s".to_owned(), cache: "/k".to_owned() };
    assert_eq!(
        binding_json("api", "workspace", &roots, "/k/flake", "/d/lock"),
        "{\"manifest\":\"api\",\"paths\":{\"cache\":\"/k\",\"config\":\"/c\",\"data\":\"/d\",\"flake\":\"/k/flake\",\"lock\":\"/d/lock\",\"state\":\"/s\"},\"source\":\"workspace\"}\n"
    );
    assert_eq!(volume_prune_json(&Vec::new(), 0), "{\"reclaimed_bytes\":0,\"volumes\":[]}\n");
    assert_eq!(generations_prune_json(&vec!["{}".to_owned()], 2), "{\"generations\":[{}],\"kept\":2}\n");
    assert_eq!(generations_switch_json("rollback", 2, Some(3)), "{\"action\":\"rollback\",\"current\":2,\"previous\":3}\n");
    assert_eq!(gc_json(None), "{\"summary\":null}\n");
    assert_eq!(
        destroy_json("api", &vec!["/s/projects/api".to_owned()], &Vec::new(), false),
        "{\"manifest\":\"api\",\"removed\":[\"/s/projects/api\"],\"spared\":[],\"volumes_kept\":false}\n"
    );
    let reading = MemoryTrimReading { target_mib: 1024, before: 3 * GIB, after: 2 * GIB };
    assert_eq!(
        memory_trim_json("api", &reading),
        "{\"manifest\":\"api\",\"mem_used_after_bytes\":2147483648,\"mem_used_before_bytes\":3221225472,\"reclaimed_bytes\":1073741824,\"target_mib\":1024}\n"
    );
}

#[test]
fn a_fleet_row_names_every_key() {
    let row = FleetRow {
        manifest: "api".to_owned(),
        workspaces: vec!["/w".to_owned()],
        path_missing: Vec::new(),
        state: State::Built,
        stale: false,
        generation: None,
        uptime_seconds: None,
        resources: None,
        readings: RuntimeReadings {
            mem_used_bytes: None,
            disk_allocated_bytes: Some(0),
            disk_virtual_bytes: Some(0),
            sessions: None,
            pressure_some_avg60: None,
        },
    };
    assert_eq!(
        row_json(&row),
        "{\"generation\":null,\"manifest\":\"api\",\"path_missing\":[],\"resources\":null,\"runtime\":{\"disk_allocated_bytes\":0,\"disk_virtual_bytes\":0,\"mem_used_bytes\":null,\"pressure_some_avg60\":null,\"sessions\":null},\"stale\":false,\"state\":\"built\",\"uptime_seconds\":null,\"workspaces\":[\"/w\"]}"
    );
    assert_eq!(
        host_json(Some(1), None, Some("0.1")),
        "{\"mem_available_bytes\":1,\"mem_total_bytes\":null,\"pressure_some_avg60\":0.1}"
    );
}

#[test]
fn a_failure_renders_the_diagnostic_block() {
    let failure = defect_failure(&analysis()).unwrap();
    let rendered = failure.render(Output::Human);
    assert!(rendered.starts_with("error[merge.equal-priority-tie]: `resources.vcpu` has two definitions at the same priority\n  where: merged configuration\n"));
}

#[test]
fn the_ladder_asks_the_agent_first_unless_told_not_to() {
    let unit = "u.service";
    let (phase, action) = ladder_step(LadderPhase::Start, LadderEvent::Record { ready: true }, false, None, unit);
    assert!(matches!(action, LadderAction::Ask { seconds: 2 }));
    let (phase, action) = ladder_step(phase, LadderEvent::Asked { acked: true }, false, None, unit);
    assert!(matches!(action, LadderAction::ReadState));
    let (_, action) = ladder_step(phase, LadderEvent::Manager(unit_state("inactive", false)), false, None, unit);
    assert!(matches!(action, LadderAction::Finish(Ok(Some(StopRung::Agent)))));

    let (_, action) = ladder_step(LadderPhase::Start, LadderEvent::Record { ready: true }, true, None, unit);
    assert!(matches!(action, LadderAction::IssueStop { grace: Some(0) }));
    let (_, action) = ladder_step(LadderPhase::Start, LadderEvent::Record { ready: false }, false, Some(-1), unit);
    assert!(matches!(action, LadderAction::IssueStop { grace: None }));

    let (phase, action) = ladder_step(LadderPhase::AgentPolling, LadderEvent::Manager(unit_state("active", true)), false, None, unit);
    assert!(matches!(action, LadderAction::IssueStop { grace: Some(10) }));
    let gone = StopEvent::Issued { success: false, stderr: b"Unit u.service not loaded.".to_vec() };
    let (_, action) = ladder_step(phase, LadderEvent::Manager(gone), false, None, unit);
    assert!(matches!(action, LadderAction::Finish(Ok(Some(StopRung::Agent)))));
}

#[test]
fn a_connection_is_authorized_then_answers_once() {
    let hello = |identity: &str| {
        ConnectionEvent::Frame(ClientFrame::Hello { schema_version: 1, boot_identity: identity.to_owned() })
    };
    let (phase, action) = connection_step(ConnectionPhase::AwaitingHello, hello("boot-a"), 1, "boot-a", 0);
    assert!(matches!(action, ConnectionAction::Send(AgentReply::Hello { schema_version: 1, .. })));
    let (phase, action) = connection_step(phase, ConnectionEvent::Wrote(true), 1, "boot-a", 0);
    assert!(matches!(action, ConnectionAction::Read));
    let (phase, action) = connection_step(phase, ConnectionEvent::Frame(ClientFrame::Resize { rows: 24, cols: 80 }), 1, "boot-a", 0);
    assert!(matches!(action, ConnectionAction::Read));
    let (phase, action) = connection_step(phase, ConnectionEvent::Frame(ClientFrame::Start), 1, "boot-a", 0);
    assert!(matches!(action, ConnectionAction::StartSession { initial_size: Some((24, 80)) }));
    assert!(matches!(phase, ConnectionPhase::InSession));
    let (phase, action) = connection_step(phase, ConnectionEvent::SessionEnded, 1, "boot-a", 1);
    assert!(matches!(action, ConnectionAction::EndSession));
    assert!(matches!(phase, ConnectionPhase::Closed));

    let (_, action) = connection_step(ConnectionPhase::AwaitingHello, hello("boot-b"), 1, "boot-a", 0);
    assert!(matches!(action, ConnectionAction::Send(AgentReply::Error("authorization"))));
    let (_, action) = connection_step(ConnectionPhase::AwaitingHello, ConnectionEvent::Unreadable, 1, "boot-a", 0);
    assert!(matches!(action, ConnectionAction::Send(AgentReply::Error("framing"))));
    let serving = ConnectionPhase::Serving { initial_size: Some((1, 1)) };
    let (_, action) = connection_step(serving, ConnectionEvent::Frame(ClientFrame::Resize { rows: 2, cols: 2 }), 1, "boot-a", 0);
    assert!(matches!(action, ConnectionAction::Send(AgentReply::Error("state"))));
    let trim = ClientFrame::Trim { mountpoints: vec!["/home\nvivarium".to_owned()] };
    let (_, action) = connection_step(ConnectionPhase::Serving { initial_size: None }, ConnectionEvent::Frame(trim), 1, "boot-a", 0);
    assert!(matches!(action, ConnectionAction::Send(AgentReply::Error("trim"))));
    let meminfo = Some("MemTotal: 4 kB\nMemAvailable: 2 kB\n".to_owned());
    let (_, action) = connection_step(ConnectionPhase::Measuring, ConnectionEvent::Meminfo(meminfo), 1, "boot-a", 0);
    match action {
        ConnectionAction::Send(AgentReply::Memory(report)) => {
            assert_eq!((report.total_bytes, report.available_bytes), (4096, 2048));
        }
        _ => panic!("a readable meminfo must be answered"),
    }
}

/// Drives one connection through `events`, moving `count` as the agent would.
fn drive(count: &mut u64, events: Vec<ConnectionEvent>) -> Vec<ConnectionAction> {
    let mut phase = ConnectionPhase::AwaitingHello;
    let mut actions = Vec::new();
    for event in events {
        let (next, action) = connection_step(phase, event, 1, "boot-a", *count);
        match action {
            ConnectionAction::StartSession { .. } => *count += 1,
            ConnectionAction::EndSession => *count -= 1,
            _ => {}
        }
        phase = next;
        actions.push(action);
    }
    actions
}

#[test]
fn sessions_are_counted_not_tracked() {
    let hello = || ConnectionEvent::Frame(ClientFrame::Hello { schema_version: 1, boot_identity: "boot-a".to_owned() });
    let mut count: u64 = 0;
    let query = |count: &mut u64| {
        let actions = drive(count, vec![hello(), ConnectionEvent::Wrote(true), ConnectionEvent::Frame(ClientFrame::Sessions)]);
        match actions.last() {
            Some(ConnectionAction::Send(AgentReply::Sessions(n))) => *n,
            _ => panic!("a count query is answered with the count"),
        }
    };
    assert_eq!(query(&mut count), 0);
    // Two sessions start and stay live.
    let mut first = ConnectionPhase::AwaitingHello;
    let mut second = ConnectionPhase::AwaitingHello;
    for phase in [&mut first, &mut second] {
        for event in [hello(), ConnectionEvent::Wrote(true), ConnectionEvent::Frame(ClientFrame::Start)] {
            let current = std::mem::replace(phase, ConnectionPhase::Closed);
            let (next, action) = connection_step(current, event, 1, "boot-a", count);
            if let ConnectionAction::StartSession { .. } = action {
                count += 1;
            }
            *phase = next;
        }
    }
    assert_eq!(query(&mut count), 2);
    // A ping and a refused connection leave it alone.
    drive(&mut count, vec![hello(), ConnectionEvent::Wrote(true), ConnectionEvent::Frame(ClientFrame::Ping), ConnectionEvent::Wrote(true)]);
    drive(&mut count, vec![ConnectionEvent::Unreadable, ConnectionEvent::Wrote(true)]);
    assert_eq!(query(&mut count), 2);
    // Each session's end brings it back down.
    for phase in [first, second] {
        let (_, action) = connection_step(phase, ConnectionEvent::SessionEnded, 1, "boot-a", count);
        assert!(matches!(action, ConnectionAction::EndSession));
        count -= 1;
    }
    assert_eq!(query(&mut count), 0);
}

#[test]
fn a_trim_request_is_token_first_and_its_marker_is_matched_by_token() {
    let token = trim_token(42, 7);
    assert_eq!(token, "# 42-7");
    let mounts = vec!["/home/vivarium".to_owned(), "/nix/.rw-store".to_owned()];
    assert_eq!(trim_body(&token, &mounts), "# 42-7\n/home/vivarium\n/nix/.rw-store\n");
    assert!(trim_request_valid(&mounts));
    assert!(!trim_request_valid(&Vec::new()));
    assert!(!trim_request_valid(&vec![String::new()]));
    assert!(marker_is_ours("# 42-7\ndone\n", &token));
    assert!(!marker_is_ours("# 0-stale\n/somewhere\n", &token));
    assert!(!marker_is_ours("", &token));
}
