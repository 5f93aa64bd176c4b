//! The container pipeline: stage keys, argument order, the platform gate
//! and the stage ordering.

use devenv::container::{registry_arg, run_registry, ContainerPipeline};
use devenv::errors::OrchestratorError;
use devenv::sanitize_container_name;

#[test]
fn sanitize_strips_everything_but_word_characters() {
    assert_eq!(sanitize_container_name("my app!"), "myapp");
    assert_eq!(sanitize_container_name("web-1_a"), "web-1_a");
    assert_eq!(sanitize_container_name("a/b:c"), "abc");
}

#[test]
fn unsupported_platform_fails_before_any_build() {
    let pipeline = ContainerPipeline::new(false);
    match pipeline.derivation_request("shell") {
        Err(OrchestratorError::UnsupportedPlatform) => {}
        other => panic!("expected UnsupportedPlatform, got {:?}", other),
    }
}

#[test]
fn pipeline_stages_in_order() {
    let mut pipeline = ContainerPipeline::new(true);
    let derivation = pipeline.derivation_request("web app").unwrap();
    assert_eq!(derivation.attr, "devenv.containers.web app.derivation");
    assert_eq!(derivation.gc_root, "container-webapp-derivation");

    pipeline.record_derivation("/nix/store/spec".to_string());
    let copy = pipeline.copy_request("web app");
    assert_eq!(copy.attr, "devenv.containers.web app.copyScript");
    assert_eq!(copy.gc_root, "container-webapp-copy");

    let registry = run_registry();
    let args = pipeline.copy_invocation(Some(&registry), &vec!["--push".to_string()]);
    assert_eq!(
        args,
        vec![
            "/nix/store/spec".to_string(),
            "docker-daemon:".to_string(),
            "--push".to_string(),
        ]
    );

    pipeline.record_copy(true).unwrap();
    let run = pipeline.run_request("web app");
    assert_eq!(run.attr, "devenv.containers.web app.dockerRun");
    assert_eq!(run.gc_root, "container-webapp-run");
    assert!(pipeline.record_run(true).is_ok());
}

#[test]
fn registry_defaults_to_false() {
    assert_eq!(registry_arg(None), "false");
    let reg = "ghcr.io".to_string();
    assert_eq!(registry_arg(Some(&reg)), "ghcr.io");
}

#[test]
fn failed_copy_names_its_stage() {
    let mut pipeline = ContainerPipeline::new(true);
    pipeline.record_derivation("/nix/store/spec".to_string());
    match pipeline.record_copy(false) {
        Err(OrchestratorError::ContainerOperationFailed(stage)) => assert_eq!(stage, "copy"),
        other => panic!("expected ContainerOperationFailed, got {:?}", other),
    }
    assert!(!pipeline.copied);
}

#[test]
fn failed_run_names_its_stage() {
    let mut pipeline = ContainerPipeline::new(true);
    pipeline.record_derivation("/nix/store/spec".to_string());
    pipeline.record_copy(true).unwrap();
    match pipeline.record_run(false) {
        Err(OrchestratorError::ContainerOperationFailed(stage)) => assert_eq!(stage, "run"),
        other => panic!("expected ContainerOperationFailed, got {:?}", other),
    }
}
