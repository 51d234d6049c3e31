//! End-to-end diagnostic runs through the orchestrator.

use envready::errors::StageError;
use envready::orchestrator::analyze;
use envready::orchestrator::flags_stage;
use envready::orchestrator::StageInputs;
use envready::report::Status;
use envready::session::DiagnosticSettings;
use envready::session::MissingPackageLedger;

fn local_settings(iface: &str) -> DiagnosticSettings {
    DiagnosticSettings {
        target_host: None,
        target_port: None,
        username: None,
        target_interface: iface.to_string(),
        skip_confirmation: false,
    }
}

fn healthy_ubuntu_inputs() -> StageInputs {
    StageInputs {
        kernel_release: "6.5.0-generic\n".to_string(),
        nodename: "ubuntu\n".to_string(),
        package_outputs: vec![
            "linux-tools-common/jammy [installed]".to_string(),
            "linux-tools-6.5.0-generic/jammy [installed]".to_string(),
            "ripgrep/jammy [installed]".to_string(),
            "clang/jammy [installed]".to_string(),
            "libbpf-dev/jammy [installed]".to_string(),
        ],
        install_answer: None,
        flag_lines: Some(vec![
            "CONFIG_BPF is set to y".to_string(),
            "CONFIG_BPF_SYSCALL is set to y".to_string(),
            "CONFIG_BPF_JIT is set to y".to_string(),
            "CONFIG_BPF_EVENTS is set to y".to_string(),
        ]),
        iface_names: vec!["lo".to_string(), "eth0".to_string(), "".to_string()],
    }
}

#[test]
fn healthy_local_run_has_zero_failures() {
    let inputs = healthy_ubuntu_inputs();
    let settings = local_settings("lo");
    let (report, ledger) = analyze(&inputs, &settings);
    assert_eq!(report.outcomes.len(), 4);
    assert_eq!(report.total_failures(), 0);
    for outcome in &report.outcomes {
        assert!(matches!(outcome.status, Status::Pass));
    }
    assert!(!ledger.has("ripgrep"));
}

#[test]
fn absent_interface_is_the_only_failure() {
    let inputs = healthy_ubuntu_inputs();
    let settings = local_settings("wlan0");
    let (report, _) = analyze(&inputs, &settings);
    assert_eq!(report.total_failures(), 1);
    assert!(matches!(report.outcomes[0].status, Status::Pass));
    assert!(matches!(report.outcomes[1].status, Status::Pass));
    assert!(matches!(report.outcomes[2].status, Status::Pass));
    match &report.outcomes[3].status {
        Status::Fail(StageError::InterfaceNotFound { name }) => assert_eq!(name, "wlan0"),
        _ => panic!("expected InterfaceNotFound"),
    }
}

#[test]
fn missing_filter_tool_short_circuits_the_flag_stage() {
    let mut inputs = healthy_ubuntu_inputs();
    inputs.package_outputs[2] = "ripgrep/jammy 13.0".to_string();
    inputs.install_answer = Some("n\n".to_string());
    inputs.flag_lines = None;
    let settings = local_settings("lo");
    let (report, ledger) = analyze(&inputs, &settings);
    assert!(ledger.has("ripgrep"));
    match &report.outcomes[1].status {
        Status::Fail(StageError::MissingPackages { packages }) => {
            assert_eq!(packages, &vec!["ripgrep".to_string()]);
        }
        _ => panic!("expected MissingPackages"),
    }
    match &report.outcomes[2].status {
        Status::Fail(StageError::MissingDependency { tool }) => assert_eq!(tool, "ripgrep"),
        _ => panic!("expected MissingDependency"),
    }
    assert_eq!(report.total_failures(), 2);
}

#[test]
fn accepted_remediation_keeps_the_flag_stage_running() {
    let mut inputs = healthy_ubuntu_inputs();
    inputs.package_outputs[2] = "ripgrep/jammy 13.0".to_string();
    inputs.install_answer = Some("\n".to_string());
    let settings = local_settings("lo");
    let (report, ledger) = analyze(&inputs, &settings);
    assert!(!ledger.has("ripgrep"));
    assert!(matches!(report.outcomes[1].status, Status::Pass));
    assert!(matches!(report.outcomes[2].status, Status::Pass));
    assert_eq!(report.total_failures(), 0);
}

#[test]
fn skip_confirmation_installs_without_an_answer() {
    let mut inputs = healthy_ubuntu_inputs();
    inputs.package_outputs[4] = "libbpf-dev/jammy 1.0".to_string();
    let mut settings = local_settings("lo");
    settings.skip_confirmation = true;
    let (report, ledger) = analyze(&inputs, &settings);
    assert!(!ledger.has("libbpf-dev"));
    assert!(matches!(report.outcomes[1].status, Status::Pass));
    assert_eq!(report.total_failures(), 0);
}

#[test]
fn unsupported_platform_fails_only_the_audit() {
    let mut inputs = healthy_ubuntu_inputs();
    inputs.nodename = "gentoo\n".to_string();
    inputs.package_outputs = Vec::new();
    let settings = local_settings("lo");
    let (report, ledger) = analyze(&inputs, &settings);
    match &report.outcomes[1].status {
        Status::Fail(StageError::UnsupportedPlatform { identity }) => {
            assert_eq!(identity, "gentoo");
        }
        _ => panic!("expected UnsupportedPlatform"),
    }
    assert!(matches!(report.outcomes[2].status, Status::Pass));
    assert_eq!(report.total_failures(), 1);
    assert!(!ledger.has("ripgrep"));
}

#[test]
fn pacman_run_with_batched_output() {
    let inputs = StageInputs {
        kernel_release: "6.6.1-arch1-1\n".to_string(),
        nodename: "archlinux\n".to_string(),
        package_outputs: vec!["bpf\nlibbpf\nbase\nbase-devel\nripgrep\nclang\n".to_string()],
        install_answer: None,
        flag_lines: Some(vec!["CONFIG_BPF is set to y".to_string()]),
        iface_names: vec!["lo".to_string()],
    };
    let settings = local_settings("lo");
    let (report, _) = analyze(&inputs, &settings);
    assert_eq!(report.total_failures(), 0);
}

#[test]
fn incompatible_kernel_is_reported_and_the_run_continues() {
    let mut inputs = healthy_ubuntu_inputs();
    inputs.kernel_release = "5.16.9-generic\n".to_string();
    inputs.package_outputs[1] = "linux-tools-5.16.9-generic/jammy [installed]".to_string();
    let settings = local_settings("lo");
    let (report, _) = analyze(&inputs, &settings);
    assert!(matches!(
        report.outcomes[0].status,
        Status::Fail(StageError::IncompatibleKernelVersion { minimum: (5, 17, 0) })
    ));
    assert!(matches!(report.outcomes[1].status, Status::Pass));
    assert_eq!(report.total_failures(), 1);
}

#[test]
fn flag_stage_gate_overrides_actual_flag_state() {
    let mut ledger = MissingPackageLedger::new();
    ledger.record(&vec!["ripgrep".to_string()]);
    match flags_stage(&ledger, None) {
        Err(StageError::MissingDependency { tool }) => assert_eq!(tool, "ripgrep"),
        _ => panic!("expected MissingDependency"),
    }
}

#[test]
fn flag_stage_without_gate_reads_the_lines() {
    let ledger = MissingPackageLedger::new();
    let lines = vec!["CONFIG_BPF is set to n".to_string()];
    assert!(flags_stage(&ledger, Some(&lines)).is_err());
    let good = vec!["CONFIG_BPF is set to y".to_string()];
    assert!(flags_stage(&ledger, Some(&good)).is_ok());
}
