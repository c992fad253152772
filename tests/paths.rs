use cue::paths::{first_missing, has_listed_extension, listed_extension, resolve_paths, select_by_extensions, wants_scan};

fn strings(v: &[&str]) -> Vec<String> {
    v.iter().map(|s| s.to_string()).collect()
}

#[test]
fn extension_matching() {
    let exts = strings(&["rs", "toml"]);
    assert!(has_listed_extension(&"./src/main.rs".to_string(), &exts));
    assert!(has_listed_extension(&"Cargo.toml".to_string(), &exts));
    assert!(!has_listed_extension(&"README.md".to_string(), &exts));
    assert!(!has_listed_extension(&"Makefile".to_string(), &exts));
    assert!(!has_listed_extension(&".rs".to_string(), &exts));
    assert!(!has_listed_extension(&"a.RS".to_string(), &exts));
}

#[test]
fn listed_extension_compares_exactly() {
    let exts = strings(&["js", "ts"]);
    assert!(listed_extension(&Some("ts".to_string()), &exts));
    assert!(!listed_extension(&Some("tsx".to_string()), &exts));
    assert!(!listed_extension(&None, &exts));
}

#[test]
fn selects_paths_in_scan_order() {
    let found = strings(&[".", "./src", "./src/a.rs", "./src/b.txt", "./build.rs"]);
    let exts = strings(&["rs"]);
    assert_eq!(select_by_extensions(&found, &exts), strings(&["./src/a.rs", "./build.rs"]));
}

#[test]
fn resolve_uses_watch_list_without_extensions() {
    let watch = strings(&["src", "tests"]);
    let found = strings(&["./x.rs"]);
    assert_eq!(resolve_paths(watch.clone(), None, &found), watch);
    assert_eq!(resolve_paths(watch.clone(), Some(vec![]), &found), watch);
    assert_eq!(resolve_paths(watch, Some(strings(&["rs"])), &found), strings(&["./x.rs"]));
}

#[test]
fn scan_only_for_non_empty_extension_list() {
    assert!(!wants_scan(&None));
    assert!(!wants_scan(&Some(vec![])));
    assert!(wants_scan(&Some(strings(&["go"]))));
}

#[test]
fn first_missing_path() {
    assert_eq!(first_missing(&vec![]), None);
    assert_eq!(first_missing(&vec![true, true]), None);
    assert_eq!(first_missing(&vec![false, true]), Some(0));
    assert_eq!(first_missing(&vec![true, false, false]), Some(1));
}
