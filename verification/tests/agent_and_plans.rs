use vivarium::agent::{
    normalized_status, parse_boot_identity, parse_credentials, parse_meminfo, BootError, CredentialId,
    BOOT_KEY,
};
use vivarium::admission::{require_current_contract, SchemaFile};
use vivarium::destroy::Plan;
use vivarium::exit::ExitKind;
use vivarium::generations::{prune_guard, rows_human, rows_json, select, switch_target, Generation, GenerationRecord};
use vivarium::paths::XdgRoots;
use vivarium::supervisor::{arguments, report, Inspected, SupervisorError, SupervisorInvocation};
use vivarium::workspace::{containing_workspace, validate_sandbox_name};

const ID: &str = "01234567-89ab-cdef-0123-456789abcdef";

#[test]
fn parses_exactly_one_identity() {
    let key = BOOT_KEY;
    assert_eq!(parse_boot_identity(&format!("quiet {key}{ID} panic=-1")).unwrap(), ID);
    assert!(matches!(parse_boot_identity("quiet"), Err(BootError::Missing)));
    assert!(matches!(parse_boot_identity(&format!("{key}{ID} {key}{ID}")), Err(BootError::Duplicate)));
    assert!(matches!(parse_boot_identity(key), Err(BootError::Invalid)));
    assert!(matches!(parse_boot_identity(&format!("{key}BAD")), Err(BootError::Invalid)));
}

#[test]
fn an_identity_is_lowercase_hex_in_the_uuid_shape() {
    let key = BOOT_KEY;
    assert!(parse_boot_identity(&format!("{key}01234567-89AB-cdef-0123-456789abcdef")).is_err());
    assert!(parse_boot_identity(&format!("{key}0123456789abcdef0123456789abcdef")).is_err());
}

#[test]
fn meminfo_parses_the_two_kernel_lines() {
    let text = "MemTotal:        4030464 kB\nMemFree:          123456 kB\n\
        MemAvailable:    2015232 kB\nBuffers:            1024 kB\n";
    let report = parse_meminfo(text).unwrap();
    assert_eq!(report.total_bytes, 4_030_464 * 1024);
    assert_eq!(report.available_bytes, 2_015_232 * 1024);
    assert!(parse_meminfo("MemTotal: 1 kB\n").is_none());
    assert!(parse_meminfo("").is_none());
}

fn owned(tokens: &[&str]) -> Vec<String> {
    tokens.iter().map(|token| (*token).to_owned()).collect()
}

#[test]
fn command_line_is_closed() {
    assert_eq!(parse_credentials(&owned(&["--credential", "ssh", "--credential", "gpg"])).unwrap().len(), 2);
    assert!(parse_credentials(&owned(&["--listen", "1"])).is_err());
    assert!(parse_credentials(&owned(&["--credential", "ssh", "--credential", "ssh"])).is_err());
    assert_eq!(
        parse_credentials(&owned(&["--credential", "gpg"])).unwrap(),
        vec![CredentialId::Gpg]
    );
}

#[test]
fn a_signal_status_is_its_shell_number() {
    assert_eq!(normalized_status(Some(15), None), 143);
    assert_eq!(normalized_status(None, Some(42)), 42);
    assert_eq!(normalized_status(None, Some(256 + 3)), 3);
    assert_eq!(normalized_status(None, None), 255);
}

fn supervisor_argv(rest: &[&str]) -> Vec<Vec<u8>> {
    std::iter::once("vivarium-supervisor")
        .chain(rest.iter().copied())
        .map(|token| token.as_bytes().to_vec())
        .collect()
}

#[test]
fn only_the_exact_invocations_parse() {
    let ok = arguments(&supervisor_argv(&["--spec", "/run/a/spec.json", "--ready-socket", "/run/a/r.sock"]));
    assert_eq!(
        ok.ok(),
        Some(SupervisorInvocation::Supervise {
            spec: b"/run/a/spec.json".to_vec(),
            ready: b"/run/a/r.sock".to_vec(),
        })
    );
    assert_eq!(arguments(&supervisor_argv(&["net-init"])).ok(), Some(SupervisorInvocation::NetInit));
    assert_eq!(
        arguments(&supervisor_argv(&["resolver", "--spec", "/run/a/spec.json"])).ok(),
        Some(SupervisorInvocation::Resolver { spec: b"/run/a/spec.json".to_vec() })
    );
    for rejected in [
        vec![],
        vec!["--spec", "/run/a/spec.json"],
        vec!["--ready-socket", "/run/a/r.sock", "--spec", "/run/a/s"],
        vec!["--spec", "spec.json", "--ready-socket", "/run/a/r.sock"],
        vec!["--spec", "/run/a/spec.json", "--ready-socket", "r.sock"],
        vec!["--spec", "/run/a/s", "--ready-socket", "/run/a/r", "--x"],
        vec!["net-init", "--x"],
        vec!["resolver"],
        vec!["resolver", "--spec", "spec.json"],
        vec!["resolver", "--spec", "/run/a/s", "--x"],
    ] {
        assert!(arguments(&supervisor_argv(&rejected)).is_err(), "accepted a malformed invocation: {rejected:?}");
    }
}

#[test]
fn every_variant_is_classified() {
    let rows: Vec<(SupervisorError, ExitKind)> = vec![
        (SupervisorError::Usage, ExitKind::Usage),
        (SupervisorError::UntrustedSpecFile, ExitKind::Usage),
        (SupervisorError::SpecPathMismatch, ExitKind::Usage),
        (SupervisorError::InvalidSpec, ExitKind::Usage),
        (SupervisorError::ReadSpec, ExitKind::IoErr),
        (SupervisorError::InspectPath { what: Inspected::LaunchSpecification }, ExitKind::IoErr),
        (SupervisorError::ReportReadiness, ExitKind::IoErr),
        (SupervisorError::NetInit, ExitKind::IoErr),
        (SupervisorError::ResolverBind, ExitKind::IoErr),
        (SupervisorError::ResolverServe, ExitKind::IoErr),
        (SupervisorError::EncodeReadiness, ExitKind::Software),
        (SupervisorError::SupervisionTask, ExitKind::Software),
        (SupervisorError::ReadinessNotReported, ExitKind::Software),
        (SupervisorError::Supervision, ExitKind::Software),
    ];
    for (error, expected) in rows {
        assert_eq!(error.exit_code(), expected, "misclassified: {error:?}");
    }
}

fn roots() -> XdgRoots {
    XdgRoots { config: "/c".to_owned(), state: "/s".to_owned(), data: "/d".to_owned(), cache: "/k".to_owned() }
}

fn assert_spared(spared: &[String], removals: &[String]) {
    for spare in spared {
        for removal in removals {
            let under = spare == removal || spare.starts_with(&format!("{removal}/"));
            assert!(!under, "{spare} is removed by {removal}");
        }
    }
}

#[test]
fn the_state_subtree_goes_and_the_pin_the_binding_and_the_cache_stay() {
    let plan = Plan::new(&roots(), "demo", false);
    let removals = plan.removals(&Vec::new());
    assert!(removals.contains(&"/s/projects/demo".to_owned()), "{removals:?}");
    assert!(removals.contains(&"/d/projects/demo/default/last-build".to_owned()), "{removals:?}");
    assert!(removals.contains(&"/d/projects/demo/default/running-build".to_owned()), "{removals:?}");
    let spared = &plan.spared;
    assert!(spared.contains(&"/d/projects/demo/default/flake.lock".to_owned()), "{spared:?}");
    assert!(spared.contains(&"/k/flakes/demo".to_owned()), "{spared:?}");
    assert!(spared.contains(&"/s/registry.toml".to_owned()), "{spared:?}");
    assert_spared(&plan.spared, &removals);
}

#[test]
fn keep_volumes_spares_the_images_and_still_unlinks_the_build() {
    let plan = Plan::new(&roots(), "demo", true);
    let removals = plan.removals(&vec![Vec::new(), Vec::new()]);
    assert!(!removals.contains(&"/s/projects/demo".to_owned()), "{removals:?}");
    assert!(plan.spared.iter().any(|path| path.ends_with("projects/demo/default/volumes")), "{:?}", plan.spared);
    assert!(removals.contains(&"/d/projects/demo/default/last-build".to_owned()), "{removals:?}");
    assert_spared(&plan.spared, &removals);
}

#[test]
fn keeping_volumes_removes_every_sibling_it_finds_and_nothing_else() {
    let plan = Plan::new(&roots(), "demo", true);
    let found = vec![
        vec!["volumes".to_owned(), "volumes.toml".to_owned(), "something-a-later-slice-added".to_owned()],
        vec!["default".to_owned(), "stale-note".to_owned()],
    ];
    let removals = plan.removals(&found);
    let target = "/s/projects/demo/default";
    assert!(removals.contains(&format!("{target}/volumes.toml")), "{removals:?}");
    assert!(removals.contains(&format!("{target}/something-a-later-slice-added")), "{removals:?}");
    assert!(removals.contains(&"/s/projects/demo/stale-note".to_owned()), "{removals:?}");
    assert!(!removals.contains(&format!("{target}/volumes")), "{removals:?}");
    assert!(!removals.contains(&target.to_owned()), "{removals:?}");
    assert_spared(&plan.spared, &removals);
}

fn row(number: u64, current: bool, built_at: Option<&str>) -> Generation {
    Generation {
        number,
        current,
        store_path: Some(format!("/nix/store/out-{number}")),
        record: built_at.map(|built_at| GenerationRecord {
            lock_digest: "sha256:x".to_owned(),
            manifest: "demo".to_owned(),
            backend: "cloud-hypervisor".to_owned(),
            built_at: built_at.to_owned(),
        }),
    }
}

fn numbers(rows: &[Generation]) -> Vec<u64> {
    rows.iter().map(|row| row.number).collect()
}

#[test]
fn keep_retains_the_newest_and_always_the_current() {
    let rows = vec![row(1, false, None), row(2, false, None), row(3, true, None)];
    assert_eq!(numbers(&select(&rows, Some(1), None, 0)), vec![1, 2]);
    assert_eq!(numbers(&select(&rows, Some(2), None, 0)), vec![1]);
    assert_eq!(numbers(&select(&rows, Some(0), None, 0)), vec![1, 2]);
    let rolled = vec![row(1, true, None), row(2, false, None), row(3, false, None)];
    assert_eq!(numbers(&select(&rolled, Some(1), None, 0)), vec![2]);
}

#[test]
fn older_than_reads_ages_and_keeps_the_unknown() {
    let now = 1_000_000_000;
    let rows = vec![
        row(1, false, Some("2000-01-01T00:00:00Z")),
        row(2, false, Some("not a date")),
        row(3, false, None),
        row(4, true, Some("2000-01-01T00:00:00Z")),
        row(5, false, Some("2001-09-09T00:00:00Z")),
    ];
    assert_eq!(numbers(&select(&rows, None, Some(86_400), now)), vec![1]);
}

#[test]
fn generation_rows_name_every_field_or_say_they_cannot() {
    let rows = vec![row(1, false, Some("2000-01-01T00:00:00Z")), row(2, true, None)];
    let human = rows_human(&rows);
    assert_eq!(human[0], vec!["1", "-", "2000-01-01T00:00:00Z", "sha256:x", "/nix/store/out-1"]);
    assert_eq!(human[1], vec!["2", "current", "-", "-", "/nix/store/out-2"]);
    let records = rows_json(&rows, "fallback");
    assert_eq!(
        records[0],
        "{\"backend\":\"cloud-hypervisor\",\"built_at\":\"2000-01-01T00:00:00Z\",\"current\":false,\
         \"lock_digest\":\"sha256:x\",\"manifest\":\"demo\",\"number\":1,\"store_path\":\"/nix/store/out-1\"}"
    );
    assert_eq!(
        records[1],
        "{\"backend\":null,\"built_at\":null,\"current\":true,\"lock_digest\":null,\
         \"manifest\":\"fallback\",\"number\":2,\"store_path\":\"/nix/store/out-2\"}"
    );
}

#[test]
fn activation_moves_only_to_a_retained_generation() {
    let retained = vec![1, 2, 4];
    assert_eq!(switch_target(&retained, Some(2), Some(4)).ok(), Some(2));
    assert_eq!(switch_target(&retained, None, Some(4)).ok(), Some(2));
    assert!(switch_target(&retained, Some(3), Some(4)).is_err());
    assert!(switch_target(&retained, None, Some(1)).is_err());
}

#[test]
fn manifest_sandbox_names_accept_48_bytes_and_refuse_49() {
    assert!(validate_sandbox_name(&"a".repeat(48), "/config/manifests/a.toml").is_ok());
    let failure = validate_sandbox_name(&"a".repeat(49), "/config/manifests/a.toml").unwrap_err();
    assert_eq!(failure.code(), ExitKind::Config);
    assert!(format!("{failure:?}").contains("name-too-long"));
}

#[test]
fn the_deepest_declared_workspace_contains_the_directory() {
    let workspaces = vec!["/home/alice".to_owned(), "/home/alice/backend".to_owned(), "/srv".to_owned()];
    assert_eq!(
        containing_workspace("/home/alice/backend/src", &workspaces),
        Some("/home/alice/backend".to_owned())
    );
    assert_eq!(containing_workspace("/home/alicex", &workspaces), None);
    assert_eq!(containing_workspace("/srv", &workspaces), Some("/srv".to_owned()));
}

#[test]
fn the_login_shell_comes_from_the_guest_users_passwd_entry() {
    let passwd = b"root:x:0:0::/root:/bin/sh\nvivarium:x:1000:100::/home/vivarium:/run/current-system/sw/bin/bash\n";
    let (shell, arg0) = vivarium::agent::login_shell(passwd, 1000).unwrap();
    assert_eq!(shell, b"/run/current-system/sw/bin/bash".to_vec());
    assert_eq!(arg0, b"-bash".to_vec());
    assert!(vivarium::agent::login_shell(passwd, 1001).is_none());
    assert!(vivarium::agent::login_shell(b"vivarium:x:1000:100::/home/vivarium:\n", 1000).is_none());
    assert!(vivarium::agent::login_shell(b"vivarium:x:1000:100::/home/vivarium:/bin/..\n", 1000).is_none());
}

#[test]
fn a_file_name_is_the_last_normal_component() {
    let name = |path: &str| vivarium::agent::file_name(path.as_bytes()).map(|bytes| String::from_utf8(bytes).unwrap());
    assert_eq!(name("/usr/bin/bash"), Some("bash".to_owned()));
    assert_eq!(name("/usr/bin/"), Some("bin".to_owned()));
    assert_eq!(name("a/./"), Some("a".to_owned()));
    assert_eq!(name("/"), None);
    assert_eq!(name("x/.."), None);
    assert_eq!(name("."), None);
    assert_eq!(vivarium::agent::split_on(b"a::b", b':'), vec![b"a".to_vec(), Vec::new(), b"b".to_vec()]);
}

#[test]
fn an_exec_program_is_the_first_non_empty_argument() {
    let argv = vec![b"sh".to_vec(), b"-c".to_vec(), b"true".to_vec()];
    let (program, arguments) = vivarium::agent::exec_program(&argv).unwrap();
    assert_eq!(program, b"sh".to_vec());
    assert_eq!(arguments, vec![b"-c".to_vec(), b"true".to_vec()]);
    assert!(vivarium::agent::exec_program(&Vec::new()).is_none());
    assert!(vivarium::agent::exec_program(&vec![Vec::new()]).is_none());
}

#[test]
fn a_build_speaking_another_contract_is_refused_before_boot() {
    assert!(require_current_contract("/nix/store/b", SchemaFile::Read("3\n".to_owned()), 3).is_ok());
    let refusal = require_current_contract("/nix/store/b", SchemaFile::Read("2\n".to_owned()), 3).unwrap_err();
    let rendered = format!("{refusal:?}");
    assert!(rendered.contains("launch-contract-skew"));
    assert!(rendered.contains("schema 2"));
    assert!(rendered.contains('3'));
    assert!(rendered.contains("--rebuild"));
    assert!(rendered.contains("/nix/store/b/share/vivarium/launch-contract-schema"));
    let refusal = require_current_contract("/nix/store/b", SchemaFile::Missing, 3).unwrap_err();
    assert!(format!("{refusal:?}").contains("predates the launch-contract publication"));
    let refusal = require_current_contract("/nix/store/b", SchemaFile::Read("three".to_owned()), 3).unwrap_err();
    assert!(format!("{refusal:?}").contains("is not a number"));
}

#[test]
fn removals_come_out_in_path_order() {
    let paths = vec!["/a-b".to_owned(), "/a/b".to_owned(), "/a".to_owned(), "/a/b".to_owned()];
    assert_eq!(vivarium::pathsort::sort_paths(&paths), vec!["/a", "/a/b", "/a/b", "/a-b"]);
    assert!(vivarium::pathsort::path_precedes("/a/b", "/a-b"));
    assert!(!vivarium::pathsort::path_precedes("/a-b", "/a/b"));
    let plan = Plan::new(&roots(), "demo", false);
    let removals = plan.removals(&Vec::new());
    assert_eq!(
        removals,
        vec!["/d/projects/demo/default/last-build", "/d/projects/demo/default/running-build", "/s/projects/demo"]
    );
}

#[test]
fn a_prune_refuses_to_unlink_the_generation_the_running_vm_booted_from() {
    let selected = vec![row(1, false, None), row(2, false, None)];
    assert!(prune_guard(&selected, false, Some("/nix/store/out-2")).is_ok());
    assert!(prune_guard(&selected, true, None).is_ok());
    assert!(prune_guard(&selected, true, Some("/nix/store/out-9")).is_ok());
    match prune_guard(&selected, true, Some("/nix/store/out-2")).err().unwrap() {
        vivarium::failure::Failure::Diagnosed { diagnostic, code } => {
            assert_eq!(diagnostic.id, "generation-in-use");
            assert_eq!(diagnostic.what, "generation 2 is what the running VM was booted from");
            assert_eq!(diagnostic.hint.as_deref(), Some("`viv stop` first, or keep more generations"));
            assert_eq!(code, ExitKind::TempFail);
        }
        vivarium::failure::Failure::Usage(_) => panic!("not a usage error"),
    }
}

#[test]
fn the_report_names_the_failure_and_every_cause_beneath_it() {
    let causes = vec!["child virtiofsd exited unexpectedly with status Some(1)".to_owned()];
    assert_eq!(
        report(&SupervisorError::Supervision, &causes),
        "vivarium-supervisor: supervision failed\n  caused by: child virtiofsd exited unexpectedly with status Some(1)\n"
    );
    assert_eq!(
        report(&SupervisorError::InspectPath { what: Inspected::RuntimeDirectory }, &Vec::new()),
        "vivarium-supervisor: cannot inspect the runtime directory before trusting it\n"
    );
    assert_eq!(SupervisorError::ReadinessNotReported.message(), "supervision ended before it reported process readiness");
}
