use cardano_devkit::config::Config;
use cardano_devkit::delegate::{delegate_invocation, delegation_outcome, spawn_failure};
use cardano_devkit::download::{download_progress, download_summary, IndicatorMessage, Progress};
use cardano_devkit::logger::{Logger, Verbosity};
use cardano_devkit::start::start_devkit;

#[test]
fn successful_command_output_passes_through() {
    let r = delegation_outcome(true, "hello\n", "");
    assert_eq!(r.stdout, "hello\n");
    assert_eq!(r.stderr, "");
    assert_eq!(r.exit_code, 0);
}

#[test]
fn failing_command_reports_stderr() {
    let r = delegation_outcome(false, "partial", "boom");
    assert_eq!(r.stdout, "");
    assert_eq!(r.stderr, "boom");
    assert_eq!(r.exit_code, 1);
}

#[test]
fn spawn_failure_is_reported() {
    let r = spawn_failure("/k/yaci-cli", "No such file or directory");
    assert_eq!(r.stderr, "Failed to execute /k/yaci-cli: No such file or directory");
    assert_eq!(r.exit_code, 1);
}

#[test]
fn delegation_runs_installed_executable() {
    let c = Config::default("~/.cardano-devkit");
    let inv = delegate_invocation(&c, Some("/home/ada"));
    assert_eq!(inv.dir, "/home/ada/.cardano-devkit/yaci-devkit");
    assert_eq!(inv.program, "/home/ada/.cardano-devkit/yaci-devkit/yaci-cli");
}

#[test]
fn download_progress_display() {
    assert!(matches!(download_progress(Some(1024), &None), Progress::Bounded(1024)));
    match download_progress(None, &None) {
        Progress::Spinner(m) => assert_eq!(m, "Downloading ..."),
        other => panic!("unexpected {:?}", other),
    }
    let heading = Some(IndicatorMessage {
        message: "Downloading Yaci DevKit".to_string(),
        step: "Step 1/2".to_string(),
        emoji: "".to_string(),
    });
    match download_progress(None, &heading) {
        Progress::Spinner(m) => assert_eq!(m, "Downloading Yaci DevKit"),
        other => panic!("unexpected {:?}", other),
    }
    assert_eq!(download_summary("https://x/y.zip", "/t/y.zip"), "Downloaded https://x/y.zip to /t/y.zip");
}

#[test]
fn start_logs_its_message() {
    assert_eq!(
        start_devkit(&Logger::new(Verbosity::Standard)),
        Some("Starting Cardano DevKit".to_string())
    );
    assert_eq!(start_devkit(&Logger::new(Verbosity::Quite)), None);
}
