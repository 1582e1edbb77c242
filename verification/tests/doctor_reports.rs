use vivarium::doctor::{preflight_refusal, command, doctor_human, doctor_json, doctor_list_json, exit_code, Finding, Probe, Severity, Status};
use vivarium::exit::ExitKind;
use vivarium::failure::Failure;
use vivarium::grammar::Output;
use vivarium::views::doctor_list_human;

fn probe(id: &str, category: &str, severity: Severity, code: Option<ExitKind>) -> Probe {
    Probe {
        id: id.to_owned(),
        category: category.to_owned(),
        scope: category.to_owned(),
        severity,
        title: format!("{id} holds"),
        code,
    }
}

fn finding(probe: Probe, status: Status, message: &str, hint: Option<&str>, reason: Option<&str>) -> Finding {
    Finding {
        probe,
        status,
        message: message.to_owned(),
        hint: hint.map(str::to_owned),
        reason: reason.map(str::to_owned),
    }
}

fn report() -> Vec<Finding> {
    vec![
        finding(probe("kvm", "host", Severity::Hard, Some(ExitKind::Unavailable)), Status::Pass, "/dev/kvm is usable", None, None),
        finding(probe("disk-space", "host", Severity::Soft, None), Status::Warn, "low", Some("free some space"), None),
        finding(probe("flake", "project", Severity::Hard, Some(ExitKind::Config)), Status::Skipped, "", None, Some("no-manifest-bound")),
    ]
}

#[test]
fn the_first_hard_failure_decides_the_exit_and_strict_promotes_a_warning() {
    let findings = report();
    assert_eq!(exit_code(&findings, false), ExitKind::Success);
    assert_eq!(exit_code(&findings, true), ExitKind::DoctorStrict);
    let mut failing = report();
    failing.push(finding(probe("cgroup", "host", Severity::Hard, Some(ExitKind::Unavailable)), Status::Fail, "no", None, None));
    failing.push(finding(probe("nix", "host", Severity::Hard, Some(ExitKind::Config)), Status::Fail, "no", None, None));
    assert_eq!(exit_code(&failing, true), ExitKind::Unavailable);
    let soft = vec![finding(probe("net", "host", Severity::Soft, None), Status::Fail, "offline", None, None)];
    assert_eq!(exit_code(&soft, false), ExitKind::Success);
    let uncoded = vec![finding(probe("odd", "host", Severity::Hard, None), Status::Fail, "?", None, None)];
    assert_eq!(exit_code(&uncoded, false), ExitKind::Software);
}

#[test]
fn the_human_report_groups_by_category_and_names_the_exit() {
    let expected = [
        "host\n",
        "  [pass]     kvm         /dev/kvm is usable\n",
        "  [warn]     disk-space  low\n",
        "                 hint: free some space\n",
        "\n",
        "project\n",
        "  [skipped]  flake       no manifest declares this workspace\n",
        "\n",
        "1 pass - 1 warn - 0 fail - 1 skipped -> exit 0\n",
    ]
    .concat();
    assert_eq!(doctor_human(&report(), ExitKind::Success), expected);
}

#[test]
fn the_json_report_carries_the_summary_and_the_schema_version() {
    let expected = [
        "{\"checks\":[",
        "{\"category\":\"host\",\"id\":\"kvm\",\"message\":\"/dev/kvm is usable\",\"scope\":\"host\",\"severity\":\"hard\",\"status\":\"pass\"},",
        "{\"category\":\"host\",\"hint\":\"free some space\",\"id\":\"disk-space\",\"message\":\"low\",\"scope\":\"host\",\"severity\":\"soft\",\"status\":\"warn\"},",
        "{\"category\":\"project\",\"id\":\"flake\",\"reason\":\"no-manifest-bound\",\"scope\":\"project\",\"severity\":\"hard\",\"status\":\"skipped\"}",
        "],\"schema_version\":\"1\",\"status\":\"warn\",",
        "\"summary\":{\"failed\":0,\"hard_failures\":0,\"passed\":1,\"skipped\":1,\"total\":3,\"warned\":1}}\n",
    ]
    .concat();
    assert_eq!(doctor_json(&report()), expected);
}

#[test]
fn a_run_notes_why_project_checks_were_skipped() {
    let (success, code) = command(&report(), false, false, true, Output::Json);
    assert_eq!(code, ExitKind::DoctorStrict);
    assert_eq!(success.notes, "project checks skipped: no manifest declares this workspace\n");
    assert_eq!(success.stdout, doctor_json(&report()));
    let (success, _) = command(&report(), true, false, false, Output::Human);
    assert_eq!(success.notes, "project checks skipped: more than one manifest declares this workspace\n");
    let (success, _) = command(&report(), false, true, false, Output::Human);
    assert_eq!(success.notes, "");
}

#[test]
fn the_catalog_lists_without_probing() {
    let catalog = vec![probe("kvm", "host", Severity::Hard, Some(ExitKind::Unavailable)), probe("flake", "project", Severity::Soft, None)];
    assert_eq!(
        doctor_list_json(&catalog),
        "{\"checks\":[{\"category\":\"host\",\"id\":\"kvm\",\"scope\":\"host\",\"severity\":\"hard\",\"title\":\"kvm holds\"},{\"category\":\"project\",\"id\":\"flake\",\"scope\":\"project\",\"severity\":\"soft\",\"title\":\"flake holds\"}]}\n"
    );
    let human = doctor_list_human(&catalog);
    assert!(human.contains("kvm"));
    assert!(human.contains("flake holds"));
    assert_eq!(human.lines().count(), 2);
}

#[test]
fn a_skipped_probe_never_changes_the_exit() {
    let mut findings = vec![finding(probe("net", "host", Severity::Soft, None), Status::Warn, "slow", None, None)];
    let before = (exit_code(&findings, false), exit_code(&findings, true));
    findings.insert(0, finding(probe("flake", "project", Severity::Hard, Some(ExitKind::Config)), Status::Skipped, "", None, Some("offline-mode")));
    assert_eq!((exit_code(&findings, false), exit_code(&findings, true)), before);
    assert_eq!(before, (ExitKind::Success, ExitKind::DoctorStrict));
}

#[test]
fn a_launch_is_refused_by_the_first_hard_failure_alone() {
    let passing = report();
    assert!(preflight_refusal(&passing).is_none());
    let mut failing = report();
    failing.push(finding(probe("kvm-usable", "host", Severity::Hard, Some(ExitKind::Unavailable)), Status::Fail, "/dev/kvm is missing", Some("enable virtualization"), None));
    failing.push(finding(probe("cgroup", "host", Severity::Hard, Some(ExitKind::Config)), Status::Fail, "no", None, None));
    match preflight_refusal(&failing) {
        Some(Failure::Diagnosed { diagnostic, code }) => {
            assert_eq!(diagnostic.id, "kvm-usable");
            assert_eq!(diagnostic.what, "/dev/kvm is missing");
            assert_eq!(diagnostic.hint.as_deref(), Some("enable virtualization"));
            assert_eq!(code, ExitKind::Unavailable);
        }
        _ => panic!("a hard failure refuses the launch"),
    }
}
