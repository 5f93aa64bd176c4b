//! Option-overlay rendering: the supported value types, the forcing
//! wrapper, and the two error paths.

use devenv::errors::OrchestratorError;
use devenv::overlay::render_options_overlay;

fn owned(items: &[&str]) -> Vec<String> {
    items.iter().map(|s| s.to_string()).collect()
}

#[test]
fn string_override_is_quoted_and_forced() {
    let options = owned(&["languages.rust.version:string", "1.75"]);
    let content = render_options_overlay(&options).unwrap();
    assert_eq!(
        content,
        "{ pkgs, lib, config, ... }: {\n  languages.rust.version = lib.mkForce \"1.75\";\n}\n"
    );
}

#[test]
fn pkgs_override_is_a_list_without_forcing() {
    let options = owned(&["packages:pkgs", "a b"]);
    let content = render_options_overlay(&options).unwrap();
    assert_eq!(
        content,
        "{ pkgs, lib, config, ... }: {\n  packages = [ pkgs.a pkgs.b ];\n}\n"
    );
}

#[test]
fn int_bool_float_pass_through_forced() {
    let options = owned(&[
        "a.count:int", "3", "b.flag:bool", "true", "c.ratio:float", "0.5",
    ]);
    let content = render_options_overlay(&options).unwrap();
    assert_eq!(
        content,
        "{ pkgs, lib, config, ... }: {\n  a.count = lib.mkForce 3;\n  b.flag = lib.mkForce true;\n  c.ratio = lib.mkForce 0.5;\n}\n"
    );
}

#[test]
fn path_and_pkg_overrides() {
    let options = owned(&["a.src:path", "sub/dir", "b.tool:pkg", "hello"]);
    let content = render_options_overlay(&options).unwrap();
    assert_eq!(
        content,
        "{ pkgs, lib, config, ... }: {\n  a.src = lib.mkForce ./sub/dir;\n  b.tool = lib.mkForce pkgs.hello;\n}\n"
    );
}

#[test]
fn key_without_type_is_invalid_option() {
    let options = owned(&["languages.rust.version", "1.75"]);
    match render_options_overlay(&options) {
        Err(OrchestratorError::InvalidOption(token)) => {
            assert_eq!(token, "languages.rust.version");
        }
        other => panic!("expected InvalidOption, got {:?}", other),
    }
}

#[test]
fn unknown_type_is_unsupported() {
    let options = owned(&["a.b:decimal", "1"]);
    match render_options_overlay(&options) {
        Err(OrchestratorError::UnsupportedOptionType(ty)) => {
            assert_eq!(ty, "decimal");
        }
        other => panic!("expected UnsupportedOptionType, got {:?}", other),
    }
}

#[test]
fn first_error_wins_and_trailing_odd_entry_is_ignored() {
    let options = owned(&["a.b", "1", "c.d:decimal", "2", "e.f:string"]);
    match render_options_overlay(&options) {
        Err(OrchestratorError::InvalidOption(token)) => assert_eq!(token, "a.b"),
        other => panic!("expected InvalidOption, got {:?}", other),
    }
}

#[test]
fn extra_colon_segments_are_ignored() {
    let options = owned(&["a.b:string:rest", "v"]);
    let content = render_options_overlay(&options).unwrap();
    assert_eq!(
        content,
        "{ pkgs, lib, config, ... }: {\n  a.b = lib.mkForce \"v\";\n}\n"
    );
}

#[test]
fn empty_option_list_renders_empty_overlay() {
    let options: Vec<String> = Vec::new();
    let content = render_options_overlay(&options).unwrap();
    assert_eq!(content, "{ pkgs, lib, config, ... }: {\n}\n");
}
