//! The assembly gate and the rendered artifacts.

use devenv::assembly::{
    direnvrc_version, direnvrc_with_rolling_upgrade, imports_content, overlay_action,
    render_flake_file, render_flake_vars, AssemblyDecision, AssemblyGate, FlakeVars,
};
use devenv::errors::OrchestratorError;

#[test]
fn fresh_gate_proceeds_and_second_call_is_a_no_op() {
    let mut gate = AssemblyGate::new();
    assert_eq!(gate.plan(false, true), AssemblyDecision::Proceed);
    gate.complete(true);
    assert_eq!(gate.plan(false, true), AssemblyDecision::AlreadyAssembled);
}

#[test]
fn failed_assembly_is_retried_in_full() {
    let mut gate = AssemblyGate::new();
    assert_eq!(gate.plan(false, true), AssemblyDecision::Proceed);
    gate.complete(false);
    assert!(!gate.assembled);
    assert_eq!(gate.plan(false, true), AssemblyDecision::Proceed);
}

#[test]
fn missing_description_without_overrides() {
    let gate = AssemblyGate::new();
    assert_eq!(gate.plan(false, false), AssemblyDecision::MissingDescription);
    assert_eq!(gate.plan(true, false), AssemblyDecision::Proceed);
}

#[test]
fn imports_are_newline_joined() {
    let imports = vec!["a".to_string(), "b/c".to_string()];
    assert_eq!(imports_content(&imports), "a\nb/c");
    assert_eq!(imports_content(&Vec::new()), "");
}

#[test]
fn overlay_action_removes_stale_file_without_overrides() {
    assert_eq!(overlay_action(&Vec::new()).unwrap(), None);
    let options = vec!["a.b:string".to_string(), "v".to_string()];
    let content = overlay_action(&options).unwrap().unwrap();
    assert!(content.contains("  a.b = lib.mkForce \"v\";\n"));
    let bad = vec!["a.b".to_string(), "v".to_string()];
    match overlay_action(&bad) {
        Err(OrchestratorError::InvalidOption(t)) => assert_eq!(t, "a.b"),
        other => panic!("expected InvalidOption, got {:?}", other),
    }
}

#[test]
fn flake_vars_render_every_line() {
    let vars = FlakeVars {
        version: "1.0".to_string(),
        system: "x86_64-linux".to_string(),
        devenv_root: "/proj".to_string(),
        devenv_dotfile_name: ".devenv".to_string(),
        container_name: None,
        devenv_tmpdir: "/tmp".to_string(),
        devenv_runtime: "/tmp/devenv-abc1234".to_string(),
        is_testing: false,
        direnvrc_version: 3,
    };
    let rendered = render_flake_vars(&vars);
    assert_eq!(
        rendered,
        "version = \"1.0\";\n\
         system = \"x86_64-linux\";\n\
         devenv_root = \"/proj\";\n\
         devenv_dotfile = ./.devenv;\n\
         devenv_dotfile_string = \".devenv\";\n\
         container_name = null;\n\
         devenv_tmpdir = \"/tmp\";\n\
         devenv_runtime = \"/tmp/devenv-abc1234\";\n\
         devenv_istesting = false;\n\
         devenv_direnvrc_latest_version = 3;\n"
    );
}

#[test]
fn flake_vars_quote_container_name_and_testing_flag() {
    let vars = FlakeVars {
        version: "1.0".to_string(),
        system: "aarch64-linux".to_string(),
        devenv_root: "/p".to_string(),
        devenv_dotfile_name: ".devenv".to_string(),
        container_name: Some("web".to_string()),
        devenv_tmpdir: "/tmp".to_string(),
        devenv_runtime: "/tmp/devenv-x".to_string(),
        is_testing: true,
        direnvrc_version: 0,
    };
    let rendered = render_flake_vars(&vars);
    assert!(rendered.contains("container_name = \"web\";\n"));
    assert!(rendered.contains("devenv_istesting = true;\n"));
}

#[test]
fn template_marker_is_replaced_once() {
    let template = "{\n  inputs = {};\n  __DEVENV_VARS__\n}\n";
    let rendered = render_flake_file(template, "version = \"1\";\n");
    assert_eq!(rendered, "{\n  inputs = {};\n  version = \"1\";\n\n}\n");
    let untouched = render_flake_file("no marker here", "x");
    assert_eq!(untouched, "no marker here");
}

#[test]
fn direnvrc_version_comes_from_marker_line() {
    let text = "# hook\nexport DEVENV_DIRENVRC_VERSION= 3 \nrest";
    assert_eq!(direnvrc_version(text), 3);
    assert_eq!(direnvrc_version("nothing here"), 0);
    assert_eq!(direnvrc_version("export DEVENV_DIRENVRC_VERSION=huge"), 0);
    assert_eq!(direnvrc_version("export DEVENV_DIRENVRC_VERSION=999"), 0);
}

#[test]
fn rolling_upgrade_switch_is_turned_on() {
    let text = "a\nDEVENV_DIRENVRC_ROLLING_UPGRADE=0\nb";
    assert_eq!(
        direnvrc_with_rolling_upgrade(text),
        "a\nDEVENV_DIRENVRC_ROLLING_UPGRADE=1\nb"
    );
}
