//! Shell preparation: interpreter resolution, the rc script, escaping and
//! the clean-environment policy.

use devenv::shell::{
    bash_attr, bash_path_from_output, clean_keep_list, escape_shell_arg, render_exec_line,
    render_rc_script,
};

#[test]
fn bash_attr_names_the_platform() {
    assert_eq!(
        bash_attr("x86_64-linux"),
        "nixpkgs#legacyPackages.x86_64-linux.bashInteractive.out"
    );
}

#[test]
fn bash_path_trims_newlines_and_appends_binary() {
    assert_eq!(
        bash_path_from_output("/nix/store/abc-bash\n"),
        "/nix/store/abc-bash/bin/bash"
    );
    assert_eq!(bash_path_from_output("/x\n\n"), "/x/bin/bash");
    assert_eq!(bash_path_from_output("/x"), "/x/bin/bash");
}

#[test]
fn escaping_quotes_arguments_with_special_characters() {
    assert_eq!(escape_shell_arg("plain-arg_1.txt"), "plain-arg_1.txt");
    assert_eq!(escape_shell_arg("a b"), "'a b'");
    assert_eq!(escape_shell_arg("it's"), "'it'\\''s'");
    assert_eq!(escape_shell_arg(""), "''");
}

#[test]
fn exec_line_escapes_each_argument() {
    let args = vec!["a b".to_string(), "plain".to_string()];
    assert_eq!(
        render_exec_line("/bin/tool", &args),
        "\nexec /bin/tool 'a b' plain"
    );
    let no_args: Vec<String> = Vec::new();
    assert_eq!(render_exec_line("cmd", &no_args), "\nexec cmd ");
}

#[test]
fn rc_script_wraps_environment_blob() {
    let script = render_rc_script("export FOO=1");
    assert_eq!(
        script,
        "if [ -n \"$PS1\" ] && [ -e $HOME/.bashrc ]; then\n    source $HOME/.bashrc;\nfi\n\nshopt -u expand_aliases\nexport FOO=1\nshopt -s expand_aliases\n"
    );
}

#[test]
fn clean_policy_prefers_the_explicit_list() {
    let explicit = Some(vec!["PATH".to_string()]);
    let config_keep = vec!["HOME".to_string()];
    assert_eq!(
        clean_keep_list(&explicit, false, &config_keep),
        Some(vec!["PATH".to_string()])
    );
    assert_eq!(
        clean_keep_list(&None, true, &config_keep),
        Some(vec!["HOME".to_string()])
    );
    assert_eq!(clean_keep_list(&None, false, &config_keep), None);
}
