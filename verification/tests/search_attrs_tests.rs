//! Search result shaping and build-attribute resolution, through the real
//! decoder.

use devenv::attrs::resolve_build_attrs;
use devenv::errors::OrchestratorError;
use devenv::search::{
    render_package_name, search_options_output, search_packages_output, truncate_chars,
};
use devenv::tasks::{
    judge_tasks_status, judge_test_outcome, tasks_run_precheck, up_precheck, verbosity_from,
    TasksStatus, VerbosityLevel,
};

#[test]
fn options_are_filtered_by_name() {
    let raw = br#"{
        "languages.rust.enable": {"type": "boolean", "description": "Rust."},
        "languages.go.enable": {"type": "boolean", "default": "false", "description": "Go."}
    }"#;
    let results = search_options_output(raw, "rust").unwrap();
    assert_eq!(results.len(), 1);
    assert_eq!(results[0].name, "languages.rust.enable");
    assert_eq!(results[0].type_, "boolean");
    assert_eq!(results[0].default, "");
    assert_eq!(results[0].description, "Rust.");
}

#[test]
fn malformed_options_document_is_a_parse_error() {
    match search_options_output(b"not json", "x") {
        Err(OrchestratorError::ParseError(_)) => {}
        other => panic!("expected ParseError, got {:?}", other),
    }
}

#[test]
fn package_rows_shorten_names_and_descriptions() {
    let raw = br#"{
        "legacyPackages.x86_64-linux.hello": {"version": "2.12", "description": "A program"}
    }"#;
    let results = search_packages_output(raw).unwrap();
    assert_eq!(results.len(), 1);
    assert_eq!(results[0].name, "pkgs.hello");
    assert_eq!(results[0].version, "2.12");
    assert_eq!(results[0].description, "A program");
}

#[test]
fn package_name_drops_two_leading_segments() {
    assert_eq!(
        render_package_name("legacyPackages.x86_64-linux.python3Packages.requests"),
        "pkgs.python3Packages.requests"
    );
    assert_eq!(render_package_name("a.b"), "pkgs.");
}

#[test]
fn descriptions_are_cut_to_eighty_characters() {
    let long = "x".repeat(100);
    assert_eq!(truncate_chars(&long, 80).len(), 80);
    assert_eq!(truncate_chars("short", 80), "short");
}

#[test]
fn explicit_build_attributes_are_prefixed() {
    let attrs = vec!["shell".to_string(), "containers.web".to_string()];
    let names = resolve_build_attrs(&attrs, "").unwrap();
    assert_eq!(
        names,
        vec!["devenv.shell".to_string(), "devenv.containers.web".to_string()]
    );
}

#[test]
fn empty_attribute_list_flattens_the_evaluated_output() {
    let raw = r#"{"a": {"b": 1, "c": {"d": true}}, "e": "leaf"}"#;
    let no_attrs: Vec<String> = Vec::new();
    let names = resolve_build_attrs(&no_attrs, raw).unwrap();
    assert_eq!(
        names,
        vec![
            "devenv.a.b".to_string(),
            "devenv.a.c.d".to_string(),
            "devenv.e".to_string(),
        ]
    );
}

#[test]
fn non_object_build_output_is_a_parse_error() {
    let no_attrs: Vec<String> = Vec::new();
    match resolve_build_attrs(&no_attrs, "[1, 2]") {
        Err(OrchestratorError::ParseError(_)) => {}
        other => panic!("expected ParseError, got {:?}", other),
    }
    match resolve_build_attrs(&no_attrs, "not json") {
        Err(OrchestratorError::ParseError(_)) => {}
        other => panic!("expected ParseError, got {:?}", other),
    }
}

#[test]
fn task_checks() {
    assert!(matches!(
        tasks_run_precheck(&Vec::new()),
        Err(OrchestratorError::NoTasksSpecified)
    ));
    assert!(tasks_run_precheck(&vec!["build".to_string()]).is_ok());

    let ok = TasksStatus { succeeded: 2, failed: 0, dependency_failed: 0 };
    assert!(judge_tasks_status(&ok).is_ok());
    let failed = TasksStatus { succeeded: 1, failed: 1, dependency_failed: 0 };
    assert!(matches!(
        judge_tasks_status(&failed),
        Err(OrchestratorError::TasksFailed)
    ));
    let dep_failed = TasksStatus { succeeded: 1, failed: 0, dependency_failed: 2 };
    assert!(matches!(
        judge_tasks_status(&dep_failed),
        Err(OrchestratorError::TasksFailed)
    ));

    assert_eq!(verbosity_from(true, true), VerbosityLevel::Quiet);
    assert_eq!(verbosity_from(false, true), VerbosityLevel::Verbose);
    assert_eq!(verbosity_from(false, false), VerbosityLevel::Normal);

    assert!(matches!(
        up_precheck(false),
        Err(OrchestratorError::NoProcessesDefined)
    ));
    assert!(matches!(
        judge_test_outcome(false),
        Err(OrchestratorError::TestsFailed)
    ));
    assert!(judge_test_outcome(true).is_ok());
}
