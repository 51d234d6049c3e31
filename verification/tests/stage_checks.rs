//! Text utilities, console answers, kernel-flag and interface stages,
//! report accounting and session state.

use envready::errors::StageError;
use envready::flags::check_bpf_enabled;
use envready::iface::check_net_iface;
use envready::prompt::answer_affirmative;
use envready::report::CheckOutcome;
use envready::report::DiagnosticReport;
use envready::report::Stage;
use envready::report::Status;
use envready::session::effective_port;
use envready::session::privileged_command;
use envready::session::select_backend;
use envready::session::Backend;
use envready::session::DiagnosticSettings;
use envready::session::MissingPackageLedger;
use envready::session::SecretCache;
use envready::text::contains_sub;
use envready::text::join;
use envready::text::split_lines;
use envready::text::str_eq;
use envready::text::trim;

#[test]
fn trim_strips_both_ends() {
    assert_eq!(trim("  hello \n"), "hello");
    assert_eq!(trim("\t\n"), "");
    assert_eq!(trim("plain"), "plain");
}

#[test]
fn substring_search_is_a_real_substring_match() {
    assert!(contains_sub("a [installed] b", "[installed]"));
    assert!(!contains_sub("installed", "[installed]"));
    assert!(contains_sub("anything", ""));
}

#[test]
fn string_equality_is_exact() {
    assert!(str_eq("eth0", "eth0"));
    assert!(!str_eq("eth0", "eth01"));
    assert!(!str_eq("eth0", "eth"));
}

#[test]
fn split_lines_keeps_empty_pieces() {
    assert_eq!(split_lines("a\nb\n"), vec!["a".to_string(), "b".to_string(), "".to_string()]);
    assert_eq!(split_lines(""), vec!["".to_string()]);
}

#[test]
fn join_places_separator_between_pieces() {
    let parts = vec!["a".to_string(), "b".to_string(), "c".to_string()];
    assert_eq!(join(&parts, "|"), "a|b|c");
    assert_eq!(join(&Vec::new(), "|"), "");
}

#[test]
fn affirmative_answers() {
    assert!(answer_affirmative(""));
    assert!(answer_affirmative("\n"));
    assert!(answer_affirmative("y\n"));
    assert!(answer_affirmative(" Y "));
    assert!(answer_affirmative("YES"));
    assert!(answer_affirmative("yes"));
    assert!(!answer_affirmative("n"));
    assert!(!answer_affirmative("no"));
    assert!(!answer_affirmative("maybe"));
    assert!(!answer_affirmative("yess"));
}

#[test]
fn all_flags_enabled_passes() {
    let lines = vec![
        "CONFIG_BPF is set to y".to_string(),
        "  CONFIG_BPF_SYSCALL is set to y".to_string(),
        "CONFIG_BPF_JIT is set to y\n".to_string(),
        "CONFIG_BPF_EVENTS is set to y".to_string(),
    ];
    assert!(check_bpf_enabled(&lines).is_ok());
}

#[test]
fn unset_flag_lines_are_reported() {
    let lines = vec![
        "CONFIG_BPF is set to y".to_string(),
        "CONFIG_BPF_JIT is set to n".to_string(),
    ];
    match check_bpf_enabled(&lines) {
        Err(StageError::MissingKernelFlags { lines: bad }) => {
            assert_eq!(bad, vec!["CONFIG_BPF_JIT is set to n".to_string()]);
        }
        _ => panic!("expected MissingKernelFlags"),
    }
}

#[test]
fn interface_must_match_exactly() {
    let present = vec!["eth0".to_string(), "lo".to_string()];
    assert!(check_net_iface("eth0", &present).is_ok());

    let near_miss = vec!["eth01".to_string()];
    match check_net_iface("eth0", &near_miss) {
        Err(StageError::InterfaceNotFound { name }) => assert_eq!(name, "eth0"),
        _ => panic!("expected InterfaceNotFound"),
    }
}

#[test]
fn report_counts_exactly_the_failures() {
    let mut report = DiagnosticReport::new();
    report.push_outcome(CheckOutcome { stage: Stage::KernelVersion, status: Status::Pass });
    report.push_outcome(CheckOutcome {
        stage: Stage::Packages,
        status: Status::Fail(StageError::UnsupportedPlatform { identity: "gentoo".to_string() }),
    });
    report.push_outcome(CheckOutcome {
        stage: Stage::KernelFlags,
        status: Status::Fail(StageError::MissingDependency { tool: "ripgrep".to_string() }),
    });
    report.push_outcome(CheckOutcome { stage: Stage::NetworkInterface, status: Status::Pass });
    assert_eq!(report.total_failures(), 2);
    assert_eq!(report.outcomes.len(), 4);
}

#[test]
fn backend_selection_rule() {
    let mut settings = DiagnosticSettings {
        target_host: None,
        target_port: None,
        username: None,
        target_interface: "eth0".to_string(),
        skip_confirmation: false,
    };
    assert_eq!(select_backend(&settings), Backend::Local);
    settings.target_host = Some("localhost".to_string());
    assert_eq!(select_backend(&settings), Backend::Local);
    settings.target_host = Some("127.0.0.1".to_string());
    assert_eq!(select_backend(&settings), Backend::Local);
    settings.target_host = Some("".to_string());
    assert_eq!(select_backend(&settings), Backend::Local);
    settings.target_host = Some("10.0.0.7".to_string());
    assert_eq!(select_backend(&settings), Backend::Remote);
}

#[test]
fn port_defaults_to_22() {
    let mut settings = DiagnosticSettings {
        target_host: Some("10.0.0.7".to_string()),
        target_port: None,
        username: None,
        target_interface: "eth0".to_string(),
        skip_confirmation: false,
    };
    assert_eq!(effective_port(&settings), 22);
    settings.target_port = Some(2222);
    assert_eq!(effective_port(&settings), 2222);
}

#[test]
fn secret_is_prompted_once_and_reused() {
    let mut cache = SecretCache::new();
    assert!(cache.needs_prompt());
    let first = cache.resolve(Some("SECRET-REDACTED".to_string())).clone();
    assert_eq!(first, "SECRET-REDACTED");
    assert!(!cache.needs_prompt());
    let second = cache.resolve(None).clone();
    assert_eq!(second, "SECRET-REDACTED");
    assert!(!cache.needs_prompt());
    let third = cache.resolve(None).clone();
    assert_eq!(third, "SECRET-REDACTED");
}

#[test]
fn privileged_command_pipes_the_secret() {
    assert_eq!(
        privileged_command("pw", "sudo -S apt install --assume-yes ripgrep"),
        "echo pw | sudo -S apt install --assume-yes ripgrep"
    );
}

#[test]
fn ledger_is_append_only() {
    let mut ledger = MissingPackageLedger::new();
    assert!(!ledger.has("ripgrep"));
    ledger.record(&vec!["clang".to_string()]);
    assert!(ledger.has("clang"));
    ledger.record(&vec!["ripgrep".to_string()]);
    assert!(ledger.has("clang"));
    assert!(ledger.has("ripgrep"));
    assert!(!ledger.has("rip"));
}
