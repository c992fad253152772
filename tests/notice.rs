use cue::notice::{change_label, label_from_file_name, separator};

#[test]
fn label_is_file_name_of_raw_path() {
    assert_eq!(change_label(&Some("src/deep/main.rs".to_string()), None), "main.rs");
}

#[test]
fn label_prefers_canonical_path() {
    let label = change_label(&Some("./src/lib.rs".to_string()), Some("/home/u/p/src/other.rs".to_string()));
    assert_eq!(label, "other.rs");
}

#[test]
fn label_falls_back_to_whole_path() {
    assert_eq!(change_label(&Some("/".to_string()), None), "/");
    assert_eq!(change_label(&Some("a/..".to_string()), None), "a/..");
}

#[test]
fn label_of_event_without_path_is_empty() {
    assert_eq!(change_label(&None, None), "");
}

#[test]
fn label_from_empty_file_name_is_the_path() {
    assert_eq!(label_from_file_name(&"p".to_string(), Some(String::new())), "p");
    assert_eq!(label_from_file_name(&"p/q".to_string(), Some("q".to_string())), "q");
    assert_eq!(label_from_file_name(&"p".to_string(), None), "p");
}

#[test]
fn separator_spans_half_the_terminal() {
    assert_eq!(separator(None), "_".repeat(40));
    assert_eq!(separator(Some(101)), "_".repeat(50));
    assert_eq!(separator(Some(1)), "");
}
