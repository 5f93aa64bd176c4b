//! Environment capture: line parsing, filtering and merge precedence.

use devenv::environment::{
    env_value, filter_env, merge_environments, parse_env_line, parse_env_lines,
};

fn pairs(items: &[(&str, &str)]) -> Vec<(String, String)> {
    items
        .iter()
        .map(|(k, v)| (k.to_string(), v.to_string()))
        .collect()
}

#[test]
fn line_splits_on_first_equals_only() {
    let kv = parse_env_line("PATH=/a=b:c").unwrap();
    assert_eq!(kv.0, "PATH");
    assert_eq!(kv.1, "/a=b:c");
}

#[test]
fn line_without_equals_is_skipped() {
    assert!(parse_env_line("not a binding").is_none());
    let lines = vec!["A=1".to_string(), "garbage".to_string(), "B=2".to_string()];
    let parsed = parse_env_lines(&lines);
    assert_eq!(parsed, pairs(&[("A", "1"), ("B", "2")]));
}

#[test]
fn captured_value_wins_over_ambient() {
    let ambient = pairs(&[("HOME", "/home/old"), ("LANG", "C")]);
    let captured = pairs(&[("HOME", "/home/new"), ("EXTRA", "yes")]);
    let merged = merge_environments(&ambient, &captured);
    assert_eq!(env_value(&merged, "HOME").unwrap(), "/home/new");
    assert_eq!(env_value(&merged, "LANG").unwrap(), "C");
    assert_eq!(env_value(&merged, "EXTRA").unwrap(), "yes");
    assert!(env_value(&merged, "MISSING").is_none());
}

#[test]
fn keep_filter_keeps_only_listed_keys() {
    let vars = pairs(&[("A", "1"), ("B", "2"), ("C", "3")]);
    let keep = vec!["A".to_string(), "C".to_string()];
    let kept = filter_env(&vars, &keep, true);
    assert_eq!(kept, pairs(&[("A", "1"), ("C", "3")]));
}

#[test]
fn drop_filter_drops_listed_keys() {
    let vars = pairs(&[("A", "1"), ("B", "2"), ("C", "3")]);
    let keep = vec!["A".to_string(), "C".to_string()];
    let rest = filter_env(&vars, &keep, false);
    assert_eq!(rest, pairs(&[("B", "2")]));
}

#[test]
fn empty_value_and_empty_key() {
    let kv = parse_env_line("EMPTY=").unwrap();
    assert_eq!(kv.0, "EMPTY");
    assert_eq!(kv.1, "");
    let kv2 = parse_env_line("=value").unwrap();
    assert_eq!(kv2.0, "");
    assert_eq!(kv2.1, "value");
}
