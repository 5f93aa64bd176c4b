//! Path derivation, process detection and the declared-input list.

use devenv::orchestrator::{
    input_paths_content, processes_defined, DeclaredInput, Devenv, DevenvOptions,
};

fn options(root: &str, dotfile: Option<&str>) -> DevenvOptions {
    DevenvOptions {
        devenv_root: root.to_string(),
        devenv_dotfile: dotfile.map(|s| s.to_string()),
        system: "x86_64-linux".to_string(),
        cli_options: Vec::new(),
        quiet: false,
        verbose: false,
        clean_keep: None,
    }
}

#[test]
fn paths_derive_from_root_and_homes() {
    let dev = Devenv::new(options("/home/u/proj", None), "/home/u/.local/share/devenv", "/tmp");
    assert_eq!(dev.paths.root, "/home/u/proj");
    assert_eq!(dev.paths.dotfile, "/home/u/proj/.devenv");
    assert_eq!(dev.paths.dot_gc, "/home/u/proj/.devenv/gc");
    assert_eq!(dev.paths.home_gc, "/home/u/.local/share/devenv/gc");
    assert_eq!(
        dev.paths.cachix_trusted_keys,
        "/home/u/.local/share/devenv/cachix_trusted_keys.json"
    );
    assert_eq!(dev.paths.runtime, "/tmp/devenv-61fc8b2");
    assert_eq!(dev.processes_log(), "/home/u/proj/.devenv/processes.log");
    assert_eq!(dev.processes_pid(), "/home/u/proj/.devenv/processes.pid");
    assert_eq!(dev.flake_path(), "/home/u/proj/.devenv.flake.nix");
    assert_eq!(dev.state_file("flake.json"), "/home/u/proj/.devenv/flake.json");
    assert_eq!(dev.gc_root("shell"), "/home/u/proj/.devenv/gc/shell");
    assert!(!dev.assembly.assembled);
    assert!(dev.service_group.pid_file.is_none());
}

#[test]
fn explicit_dotfile_wins() {
    let dev = Devenv::new(options("/proj", Some("/elsewhere/state")), "/data", "/tmp");
    assert_eq!(dev.paths.dotfile, "/elsewhere/state");
    assert_eq!(dev.paths.dot_gc, "/elsewhere/state/gc");
}

#[test]
fn processes_detection_ignores_whitespace() {
    assert!(!processes_defined("{}"));
    assert!(!processes_defined("  {}\n"));
    assert!(processes_defined("{ web = {}; }"));
    assert!(processes_defined(""));
}

#[test]
fn input_paths_exclude_the_overlay_file() {
    let inputs = vec![
        DeclaredInput::File("/proj/devenv.nix".to_string()),
        DeclaredInput::Other,
        DeclaredInput::File("/proj/.devenv/cli-options.nix".to_string()),
        DeclaredInput::File("/proj/devenv.yaml".to_string()),
    ];
    let content = input_paths_content(&inputs, "/proj/.devenv/cli-options.nix");
    assert_eq!(content, "/proj/devenv.nix\n/proj/devenv.yaml");
}
