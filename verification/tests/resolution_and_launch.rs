use vivarium::agent::CredentialId;
use vivarium::config_view::{config_eval_human, config_eval_json, config_sources_json, Conflict, Contributor, ValueView};
use vivarium::doctor::{doctor_begin, DoctorStart, Probe, Severity};
use vivarium::exit::ExitKind;
use vivarium::failure::{Diagnostic, Failure, Locus};
use vivarium::grammar::Output;
use vivarium::launcher::{launch_outcome, launcher_arguments, launcher_program, launcher_unavailable, MountPlan, MountPlanKind};
use vivarium::lifecycle::{Resources, State};
use vivarium::status::{failure_reason, is_stale};
use vivarium::resolution::{check_selected, resolve_owner, unbound, workspace_finding, workspace_refusal, ManifestChoice};
use vivarium::workspace::{WorkspaceDefect, WorkspaceDefectKind, WorkspaceFinding};

fn diagnostic(failure: &Failure) -> (&Diagnostic, ExitKind) {
    match failure {
        Failure::Diagnosed { diagnostic, code } => (diagnostic, *code),
        Failure::Usage(_) => panic!("a diagnosed failure was expected"),
    }
}

fn file_of(d: &Diagnostic) -> &str {
    match &d.locus {
        Locus::File(p) => p.as_str(),
        Locus::Named(n) => n.as_str(),
    }
}

fn candidates(rows: &[(&str, &str, bool)]) -> Vec<(String, String, bool)> {
    rows.iter().map(|(n, p, o)| (n.to_string(), p.to_string(), *o)).collect()
}

#[test]
fn an_explicit_manifest_wins_over_the_library() {
    let library = candidates(&[("a", "/c/manifests/a.toml", true), ("b", "/c/manifests/b.toml", true)]);
    let r = resolve_owner(Some("chosen".to_owned()), &library, "/c", "/work", "hint");
    assert!(matches!(r, Ok(ManifestChoice::Named(ref n)) if n == "chosen"));
}

#[test]
fn the_single_owner_is_selected() {
    let library = candidates(&[("a", "/c/manifests/a.toml", false), ("b", "/c/manifests/b.toml", true)]);
    let r = resolve_owner(None, &library, "/c", "/work", "hint");
    assert!(matches!(r, Ok(ManifestChoice::Owner { ref name, ref path }) if name == "b" && path == "/c/manifests/b.toml"));
}

#[test]
fn no_owner_is_the_fail_closed_refusal_with_the_config_code() {
    let library = candidates(&[("a", "/c/manifests/a.toml", false)]);
    let failure = resolve_owner(None, &library, "/home/u/.config/vivarium", "/work", "declare it").err().unwrap();
    let (d, code) = diagnostic(&failure);
    assert_eq!(code, ExitKind::Config);
    assert_eq!(code.code(), 78);
    assert_eq!(d.id, "no-manifest");
    assert_eq!(d.what, "no manifest owns the working directory");
    assert_eq!(file_of(d), "/home/u/.config/vivarium/manifests");
    assert_eq!(
        d.why,
        "nothing was given by `--manifest` or `VIVARIUM_MANIFEST`, and no manifest declares this directory in `[[workspaces]]`"
    );
    assert_eq!(d.hint.as_deref(), Some("declare it"));
    let bare = unbound("/c/", "h".to_owned());
    let (d2, _) = diagnostic(&bare);
    assert_eq!(file_of(d2), "/c/manifests");
}

#[test]
fn two_owners_are_refused_as_ambiguous() {
    let library = candidates(&[("a", "/m/a.toml", true), ("x", "/m/x.toml", false), ("b", "/m/b.toml", true)]);
    let failure = resolve_owner(None, &library, "/c", "/work", "hint").err().unwrap();
    let (d, code) = diagnostic(&failure);
    assert_eq!(code, ExitKind::Config);
    assert_eq!(d.id, "workspace-owner-ambiguous");
    assert_eq!(d.why, "`a` (/m/a.toml) and `b` (/m/b.toml) both claim the working directory `/work`");
}

fn missing(declared: &str) -> WorkspaceDefect {
    WorkspaceDefect { declared: declared.to_owned(), kind: WorkspaceDefectKind::Missing { expanded: "/gone".to_owned() } }
}

#[test]
fn a_defect_is_reported_before_an_undeclared_directory() {
    let r = workspace_refusal(Some(missing("$HOME/gone")), None, false, "m", "/m.toml", "/work");
    let (d, code) = diagnostic(r.as_ref().unwrap());
    assert_eq!(code, ExitKind::Config);
    assert_eq!(d.id, "workspace-source-missing");
    let r = workspace_refusal(None, None, false, "m", "/m.toml", "/work");
    let (d, _) = diagnostic(r.as_ref().unwrap());
    assert_eq!(d.id, "workspace-undeclared-directory");
    assert_eq!(file_of(d), "/m.toml");
    assert!(workspace_refusal(None, Some("/work".to_owned()), false, "m", "/m.toml", "/work").is_none());
}

#[test]
fn allowing_undeclared_directories_switches_the_refusal_off() {
    assert!(workspace_refusal(Some(missing("x")), None, true, "m", "/m.toml", "/work").is_none());
    assert!(workspace_refusal(None, None, true, "m", "/m.toml", "/work").is_none());
    let w = workspace_finding(None, &None, "m", "/m.toml", "/work");
    assert!(matches!(w, Some(WorkspaceFinding::Undeclared(ref u)) if u.manifest == "m" && u.cwd == "/work"));
    let kept = check_selected("m", "/m.toml", None, &None, true, "/work").unwrap();
    assert!(matches!(kept, Some(WorkspaceFinding::Undeclared(_))));
}

#[test]
fn the_selected_name_is_checked_before_its_workspaces() {
    let long = "n".repeat(49);
    let failure = check_selected(&long, "/m.toml", Some(missing("x")), &None, false, "/work").err().unwrap();
    let (d, _) = diagnostic(&failure);
    assert_eq!(d.id, "name-too-long");
    let failure = check_selected("m", "/m.toml", Some(missing("x")), &None, false, "/work").err().unwrap();
    assert_eq!(diagnostic(&failure).0.id, "workspace-source-missing");
    assert!(matches!(check_selected("m", "/m.toml", None, &Some("/work".to_owned()), false, "/work"), Ok(None)));
}

#[test]
fn the_launcher_is_given_every_flag_mount_and_socket_in_order() {
    let mounts = vec![
        MountPlan { tag: "ws0".to_owned(), kind: MountPlanKind::Dir, source: "/work".to_owned(), entry: None },
        MountPlan { tag: "d1".to_owned(), kind: MountPlanKind::Dir, source: "/data".to_owned(), entry: None },
        MountPlan { tag: "t2".to_owned(), kind: MountPlanKind::Tree, source: "/work".to_owned(), entry: None },
        MountPlan { tag: "f3".to_owned(), kind: MountPlanKind::File, source: "/etc".to_owned(), entry: Some("gitconfig".to_owned()) },
    ];
    let sockets = vec![(CredentialId::Ssh, "/run/ssh.sock".to_owned()), (CredentialId::Gpg, "/run/gpg.sock".to_owned())];
    let args = launcher_arguments(
        "/run/v/api/default",
        "/data/v/projects/api/default/volumes",
        "/bin/supervisor",
        1000,
        100,
        Resources { mem_mib: 2048, vcpu: 4 },
        "api",
        &mounts,
        &vec!["/work".to_owned()],
        &sockets,
    );
    let expected: Vec<&str> = vec![
        "--runtime-dir", "/run/v/api/default", "--volume-dir", "/data/v/projects/api/default/volumes",
        "--supervisor", "/bin/supervisor", "--uid", "1000", "--gid", "100", "--memory-mib", "2048", "--vcpu", "4",
        "--sandbox-id", "api", "--target", "default",
        "--mount", "ws0", "tree", "/work", "-",
        "--mount", "d1", "dir", "/data", "-",
        "--mount", "t2", "dir", "/work", "-",
        "--mount", "f3", "file", "/etc", "gitconfig",
        "--ssh-agent-socket", "/run/ssh.sock", "--gpg-agent-socket", "/run/gpg.sock",
    ];
    assert_eq!(args, expected);
    assert_eq!(launcher_program("/nix/store/abc"), "/nix/store/abc/bin/vivarium-base-image");
}

#[test]
fn a_launcher_that_fails_reports_its_trimmed_stderr() {
    assert!(launch_outcome(true, "ignored", "/p").is_ok());
    let failure = launch_outcome(false, "  bad mount tag\n", "/nix/store/abc/bin/vivarium-base-image").err().unwrap();
    let (d, code) = diagnostic(&failure);
    assert_eq!(code, ExitKind::Software);
    assert_eq!(code.code(), 70);
    assert_eq!(d.id, "spec-render-failed");
    assert_eq!(d.what, "the launch specification could not be rendered");
    assert_eq!(d.why, "bad mount tag");
    assert_eq!(file_of(d), "/nix/store/abc/bin/vivarium-base-image");
    let unavailable = launcher_unavailable("/p", "No such file".to_owned());
    let (d, code) = diagnostic(&unavailable);
    assert_eq!((d.id.as_str(), code), ("launcher-unavailable", ExitKind::Software));
}

fn catalog() -> Vec<Probe> {
    vec![Probe {
        id: "kvm".to_owned(),
        category: "host".to_owned(),
        scope: "host".to_owned(),
        severity: Severity::Hard,
        title: "KVM is usable".to_owned(),
        code: Some(ExitKind::Unavailable),
    }]
}

#[test]
fn doctor_list_enumerates_the_catalog_and_probes_nothing() {
    match doctor_begin(true, &catalog(), Output::Json) {
        DoctorStart::Finish(success, code) => {
            assert_eq!(code, ExitKind::Success);
            assert_eq!(
                success.stdout,
                "{\"checks\":[{\"category\":\"host\",\"id\":\"kvm\",\"scope\":\"host\",\"severity\":\"hard\",\"title\":\"KVM is usable\"}]}\n"
            );
            assert_eq!(success.notes, "");
        }
        DoctorStart::Probe => panic!("--list probes nothing"),
    }
    assert!(matches!(doctor_begin(true, &catalog(), Output::Human), DoctorStart::Finish(_, ExitKind::Success)));
    assert!(matches!(doctor_begin(false, &catalog(), Output::Human), DoctorStart::Probe));
}

fn view(key: &str, effective: Option<&str>) -> ValueView {
    ValueView { key: key.to_owned(), effective: effective.map(str::to_owned), elements: None, winner: None, contributors: Vec::new() }
}

#[test]
fn config_eval_reads_as_toml_and_omits_what_is_absent() {
    let mut mounts = view("mounts", Some("[{\"readonly\":true,\"source\":\"/a\",\"target\":\"/b\"}]"));
    mounts.elements = Some(vec![vec![
        ("readonly".to_owned(), "true".to_owned()),
        ("source".to_owned(), "\"/a\"".to_owned()),
        ("target".to_owned(), "\"/b\"".to_owned()),
    ]]);
    let values = vec![
        view("resources.mem_mib", Some("2048")),
        view("resources.vcpu", Some("null")),
        view("credentials.agents", Some("[]")),
        view("env.EDITOR", Some("\"vi\"")),
        view("env.PAGER", None),
        mounts,
    ];
    assert_eq!(
        config_eval_human(&values),
        "[resources]\nmem_mib = 2048\n\n[env]\nEDITOR = \"vi\"\n\n[[mounts]]\nsource   = \"/a\"\ntarget   = \"/b\"\nreadonly = true\n"
    );
    assert_eq!(config_eval_human(&Vec::new()), "");
}

#[test]
fn config_eval_json_nests_the_configuration_under_its_identity() {
    let text = config_eval_json("api", "base\"\u{1}", &vec!["rust".to_owned(), "node".to_owned()], "{\"resources\":{}}");
    assert_eq!(
        text,
        "{\"config\":{\"resources\":{}},\"image\":\"base\\\"\\u0001\",\"manifest\":\"api\",\"pieces\":[\"rust\",\"node\"]}\n"
    );
}

#[test]
fn config_sources_json_keys_values_in_order_and_keeps_conflicts() {
    let mut vcpu = view("resources.vcpu", Some("4"));
    vcpu.winner = Some("manifest".to_owned());
    vcpu.contributors = vec![Contributor {
        layer: "manifest".to_owned(),
        kind: "manifest".to_owned(),
        priority: "100".to_owned(),
        value: "4".to_owned(),
        winner: true,
    }];
    let values = vec![vcpu, view("env.A", None), view("env.A", Some("\"b\""))];
    let conflicts = vec![Conflict { kind: "tie".to_owned(), key: "env.A".to_owned(), layers: vec!["p".to_owned(), "q".to_owned()] }];
    let text = config_sources_json("api", "base", &Vec::new(), &values, &conflicts);
    assert_eq!(
        text,
        [
            "{\"conflicts\":[{\"key\":\"env.A\",\"kind\":\"tie\",\"layers\":[\"p\",\"q\"]}],",
            "\"image\":\"base\",\"manifest\":\"api\",\"pieces\":[],\"values\":{",
            "\"env.A\":{\"contributors\":[],\"effective\":\"b\",\"winner\":null},",
            "\"resources.vcpu\":{\"contributors\":[{\"kind\":\"manifest\",\"layer\":\"manifest\",\"priority\":100,\"value\":4,\"winner\":true}],\"effective\":4,\"winner\":\"manifest\"}",
            "}}\n",
        ]
        .concat()
    );
}

#[test]
fn a_failed_vm_is_reported_crashed_and_a_running_one_stale_only_on_a_known_difference() {
    assert_eq!(failure_reason(State::Failed).as_deref(), Some("crashed"));
    assert_eq!(failure_reason(State::Running), None);
    assert!(is_stale(State::Running, Some("/nix/store/new"), Some("/nix/store/old")));
    assert!(!is_stale(State::Running, Some("/nix/store/new"), Some("/nix/store/new")));
    assert!(!is_stale(State::Running, None, Some("/nix/store/old")));
    assert!(!is_stale(State::Built, Some("/a"), Some("/b")));
}
