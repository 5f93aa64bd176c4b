//! Initialization decisions and error labels.

use devenv::errors::OrchestratorError;
use devenv::init::{init_file_action, required_files, InitFileAction};

#[test]
fn missing_files_are_written() {
    assert_eq!(init_file_action("devenv.nix", false), InitFileAction::Write);
    assert_eq!(init_file_action(".gitignore", false), InitFileAction::Write);
}

#[test]
fn existing_ignore_file_is_appended_to() {
    assert_eq!(init_file_action(".gitignore", true), InitFileAction::Append);
}

#[test]
fn other_existing_files_need_confirmation() {
    assert_eq!(
        init_file_action("devenv.nix", true),
        InitFileAction::ConfirmOverwrite
    );
    assert_eq!(
        init_file_action(".envrc", true),
        InitFileAction::ConfirmOverwrite
    );
}

#[test]
fn required_files_in_order() {
    assert_eq!(
        required_files(),
        vec![
            "devenv.nix".to_string(),
            "devenv.yaml".to_string(),
            ".envrc".to_string(),
            ".gitignore".to_string(),
        ]
    );
}

#[test]
fn error_labels_are_stable() {
    assert_eq!(
        OrchestratorError::MissingEnvironmentDescription.label(),
        "missing environment description"
    );
    assert_eq!(OrchestratorError::NotRunning.label(), "no processes running");
    assert_eq!(OrchestratorError::ProcessNotFound.label(), "process not found");
    assert_eq!(
        OrchestratorError::UnsupportedPlatform.label(),
        "unsupported platform"
    );
    assert_eq!(
        OrchestratorError::ContainerOperationFailed("copy".to_string()).label(),
        "container operation failed"
    );
}
