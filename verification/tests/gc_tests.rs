//! Generation classification and the collection report.

use devenv::gc::{classify_generations, gc_report, GenerationEntry};

fn entry(is_symlink: bool, target_exists: bool, target: &str, path: &str) -> GenerationEntry {
    GenerationEntry {
        is_symlink,
        target_exists,
        target: target.to_string(),
        path: path.to_string(),
    }
}

#[test]
fn one_live_one_dangling() {
    let entries = vec![
        entry(true, true, "/nix/store/live", "/gc/a"),
        entry(true, false, "", "/gc/b"),
    ];
    let scan = classify_generations(&entries);
    assert_eq!(scan.live_targets, vec!["/nix/store/live".to_string()]);
    assert_eq!(scan.dangling_paths, vec!["/gc/b".to_string()]);
    let report = gc_report(scan.live_targets.len(), scan.dangling_paths.len(), 1);
    assert_eq!(report.scanned_live, 1);
    assert_eq!(report.removed_dangling, 1);
    assert_eq!(report.removed_live, 0);
}

#[test]
fn non_symlink_entries_are_ignored() {
    let entries = vec![
        entry(false, true, "/nix/store/x", "/gc/file"),
        entry(true, true, "/nix/store/y", "/gc/link"),
    ];
    let scan = classify_generations(&entries);
    assert_eq!(scan.live_targets, vec!["/nix/store/y".to_string()]);
    assert!(scan.dangling_paths.is_empty());
}

#[test]
fn live_targets_keep_scan_order() {
    let entries = vec![
        entry(true, true, "/s/1", "/gc/1"),
        entry(true, false, "", "/gc/2"),
        entry(true, true, "/s/3", "/gc/3"),
    ];
    let scan = classify_generations(&entries);
    assert_eq!(
        scan.live_targets,
        vec!["/s/1".to_string(), "/s/3".to_string()]
    );
}

#[test]
fn report_counts_removed_live() {
    let report = gc_report(5, 2, 3);
    assert_eq!(report.scanned_live, 5);
    assert_eq!(report.removed_dangling, 2);
    assert_eq!(report.removed_live, 2);
}

#[test]
fn empty_directory_scans_empty() {
    let entries: Vec<GenerationEntry> = Vec::new();
    let scan = classify_generations(&entries);
    assert!(scan.live_targets.is_empty());
    assert!(scan.dangling_paths.is_empty());
}
