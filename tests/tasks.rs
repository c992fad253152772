use cue::plan::{
    config_source, direct_plan, is_zero_config, pick_task, plan_task_run, zero_config_source, ConfigSource, DirectError,
    RunError, TaskPick,
};
use cue::tasks::{Task, TaskBook};

fn strings(v: &[&str]) -> Vec<String> {
    v.iter().map(|s| s.to_string()).collect()
}

fn task(watch: &[&str], run: Option<&str>, exts: Option<&[&str]>) -> Task {
    Task { watch: strings(watch), run: run.map(|r| r.to_string()), extensions: exts.map(strings) }
}

fn book() -> TaskBook {
    let mut b = TaskBook::new(Some("build".to_string()));
    b.add("build".to_string(), task(&["src"], Some("cargo build"), Some(&["rs"])));
    b.add("test".to_string(), task(&["src", "tests"], None, None));
    b
}

#[test]
fn add_and_list_in_order() {
    let b = book();
    assert_eq!(b.len(), 2);
    assert_eq!(b.names(), strings(&["build", "test"]));
    let (name, t) = b.entry(1);
    assert_eq!(name, "test");
    assert_eq!(t.watch, strings(&["src", "tests"]));
    assert_eq!(b.default_name(), Some("build".to_string()));
}

#[test]
fn add_replaces_same_name() {
    let mut b = book();
    b.add("build".to_string(), task(&["lib"], Some("make"), None));
    assert_eq!(b.len(), 2);
    assert_eq!(b.names(), strings(&["build", "test"]));
    let t = b.get(&"build".to_string()).unwrap();
    assert_eq!(t.watch, strings(&["lib"]));
    assert_eq!(t.run, Some("make".to_string()));
    assert_eq!(t.extensions, None);
}

#[test]
fn remove_existing_and_missing() {
    let mut b = book();
    assert!(b.remove(&"build".to_string()));
    assert_eq!(b.names(), strings(&["test"]));
    assert!(!b.remove(&"build".to_string()));
    assert!(b.get(&"build".to_string()).is_none());
    assert!(b.remove(&"test".to_string()));
    assert!(b.is_empty());
}

#[test]
fn edit_changes_given_fields_only() {
    let mut b = book();
    assert!(b.edit(&"build".to_string(), vec![], Some("cargo check".to_string()), None));
    let t = b.get(&"build".to_string()).unwrap();
    assert_eq!(t.watch, strings(&["src"]));
    assert_eq!(t.run, Some("cargo check".to_string()));
    assert_eq!(t.extensions, Some(strings(&["rs"])));
    assert!(b.edit(&"build".to_string(), strings(&["a", "b"]), None, Some(strings(&["c"]))));
    let t = b.get(&"build".to_string()).unwrap();
    assert_eq!(t.watch, strings(&["a", "b"]));
    assert_eq!(t.run, Some("cargo check".to_string()));
    assert_eq!(t.extensions, Some(strings(&["c"])));
}

#[test]
fn edit_missing_task() {
    let mut b = book();
    assert!(!b.edit(&"nope".to_string(), strings(&["x"]), None, None));
    assert_eq!(b.names(), strings(&["build", "test"]));
}

#[test]
fn rename_moves_task() {
    let mut b = book();
    assert!(b.rename(&"build".to_string(), "compile".to_string()));
    assert_eq!(b.names(), strings(&["test", "compile"]));
    assert_eq!(b.get(&"compile".to_string()).unwrap().run, Some("cargo build".to_string()));
    assert!(!b.rename(&"build".to_string(), "x".to_string()));
}

#[test]
fn rename_onto_existing_name_replaces_it() {
    let mut b = book();
    assert!(b.rename(&"test".to_string(), "build".to_string()));
    assert_eq!(b.names(), strings(&["build"]));
    assert_eq!(b.get(&"build".to_string()).unwrap().run, None);
}

#[test]
fn run_plan_takes_task_fields() {
    let b = book();
    let p = plan_task_run(&b, &"build".to_string(), None, None, None).ok().unwrap();
    assert_eq!(p.watch, strings(&["src"]));
    assert_eq!(p.extensions, Some(strings(&["rs"])));
    assert_eq!(p.run, "cargo build");
}

#[test]
fn run_plan_overrides() {
    let b = book();
    let p = plan_task_run(
        &b,
        &"test".to_string(),
        Some(strings(&["lib"])),
        Some("make test".to_string()),
        Some(strings(&["c"])),
    )
    .ok()
    .unwrap();
    assert_eq!(p.watch, strings(&["lib"]));
    assert_eq!(p.extensions, Some(strings(&["c"])));
    assert_eq!(p.run, "make test");
}

#[test]
fn run_plan_errors() {
    let b = book();
    assert!(matches!(plan_task_run(&b, &"nope".to_string(), None, None, None), Err(RunError::TaskNotFound)));
    assert!(matches!(plan_task_run(&b, &"test".to_string(), None, None, None), Err(RunError::NoRunCommand)));
}

#[test]
fn picking_a_task() {
    assert!(matches!(pick_task(Some("a".to_string()), Some("b".to_string())), TaskPick::Named(n) if n == "a"));
    assert!(matches!(pick_task(None, Some("b".to_string())), TaskPick::Default(d) if d == "b"));
    assert!(matches!(pick_task(None, None), TaskPick::Ask));
}

#[test]
fn config_sources() {
    assert!(config_source(true, true) == ConfigSource::Global);
    assert!(config_source(false, true) == ConfigSource::Local);
    assert!(config_source(false, false) == ConfigSource::Global);
    assert!(zero_config_source(true, false) == Some(ConfigSource::Global));
    assert!(zero_config_source(false, true) == Some(ConfigSource::Local));
    assert!(zero_config_source(false, false).is_none());
}

#[test]
fn direct_arguments() {
    assert!(is_zero_config(&vec![], &None, &None));
    assert!(!is_zero_config(&vec![], &Some("x".to_string()), &None));
    assert!(matches!(direct_plan(vec![], Some("echo hello".to_string()), None), Err(DirectError::MissingPaths)));
    assert!(matches!(direct_plan(strings(&["src"]), None, None), Err(DirectError::MissingCommand)));
    let p = direct_plan(vec![], Some("go test".to_string()), Some(strings(&["go"]))).ok().unwrap();
    assert_eq!(p.run, "go test");
    assert_eq!(p.extensions, Some(strings(&["go"])));
    let p = direct_plan(strings(&["src"]), Some("echo hi".to_string()), None).ok().unwrap();
    assert_eq!(p.watch, strings(&["src"]));
}
