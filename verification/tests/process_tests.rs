//! Pid-file lifecycle and the service-group launch script.

use devenv::errors::OrchestratorError;
use devenv::numbers::{parse_decimal, render_decimal};
use devenv::processes::{render_processes_script, ServiceGroup};

#[test]
fn stop_without_start_is_not_running() {
    let mut group = ServiceGroup::new();
    match group.stop(true) {
        Err(OrchestratorError::NotRunning) => {}
        other => panic!("expected NotRunning, got {:?}", other),
    }
}

#[test]
fn start_then_stop_removes_pid_file() {
    let mut group = ServiceGroup::new();
    group.start_detached(4242);
    assert_eq!(group.pid_file, Some(4242));
    assert_eq!(group.stop(true).unwrap(), 4242);
    assert!(group.pid_file.is_none());
    match group.stop(true) {
        Err(OrchestratorError::NotRunning) => {}
        other => panic!("expected NotRunning, got {:?}", other),
    }
}

#[test]
fn missed_signal_keeps_pid_file() {
    let mut group = ServiceGroup::new();
    group.start_detached(7);
    match group.stop(false) {
        Err(OrchestratorError::ProcessNotFound) => {}
        other => panic!("expected ProcessNotFound, got {:?}", other),
    }
    assert_eq!(group.pid_file, Some(7));
}

#[test]
fn pid_file_content_round_trips() {
    let rendered = render_decimal(4042);
    assert_eq!(rendered, "4042");
    assert_eq!(parse_decimal(&rendered), Some(4042));
    assert_eq!(render_decimal(0), "0");
    assert_eq!(parse_decimal("007"), Some(7));
    assert_eq!(parse_decimal(""), None);
    assert_eq!(parse_decimal("12a"), None);
    assert_eq!(parse_decimal("99999999999999999999"), None);
}

#[test]
fn detached_script_disables_tui() {
    let processes = vec!["web".to_string(), "worker".to_string()];
    let script = render_processes_script("/nix/store/proc", &processes, true);
    assert_eq!(
        script,
        "#!/usr/bin/env bash\nexport PC_TUI_ENABLED=0\nexec /nix/store/proc web worker\n"
    );
}

#[test]
fn foreground_script_keeps_tui() {
    let processes: Vec<String> = Vec::new();
    let script = render_processes_script("/nix/store/proc", &processes, false);
    assert_eq!(script, "#!/usr/bin/env bash\n\nexec /nix/store/proc \n");
}
