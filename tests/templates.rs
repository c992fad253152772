use cue::templates::{init_template, same_text, template_kind, template_text, TemplateKind, GENERIC_TEMPLATE, NODE_TEMPLATE, RUST_TEMPLATE, SHELL_TEMPLATE};

#[test]
fn generic_template_without_language() {
    assert_eq!(init_template(&None), GENERIC_TEMPLATE);
    assert!(GENERIC_TEMPLATE.contains("[tasks.build]"));
}

#[test]
fn language_names_ignore_case() {
    assert_eq!(init_template(&Some("Rust".to_string())), RUST_TEMPLATE);
    assert!(RUST_TEMPLATE.starts_with("default = \"run\""));
    assert_eq!(init_template(&Some("NODEJS".to_string())), NODE_TEMPLATE);
    assert_eq!(init_template(&Some("node".to_string())), NODE_TEMPLATE);
    assert_eq!(init_template(&Some("sh".to_string())), SHELL_TEMPLATE);
}

#[test]
fn unknown_language_gets_generic_template() {
    assert_eq!(init_template(&Some("cobol".to_string())), GENERIC_TEMPLATE);
    assert!(template_kind("") == TemplateKind::Generic);
}

#[test]
fn kinds_and_texts() {
    assert!(template_kind("scss") == TemplateKind::Css);
    assert!(template_kind("cpp") == TemplateKind::Cpp);
    assert!(template_kind("c") == TemplateKind::C);
    assert!(template_text(TemplateKind::Go).contains("go run ."));
}

#[test]
fn text_comparison() {
    assert!(same_text("abc", "abc"));
    assert!(!same_text("abc", "abd"));
    assert!(!same_text("ab", "abc"));
    assert!(same_text("", ""));
}
