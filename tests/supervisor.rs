use cue::supervisor::{ChangeEvent, ChangeKind, Reaction, Settings, SetupError, Step, Supervisor, WatchEvent};

fn settings(debounce_ms: u64) -> Settings {
    Settings { debounce_ms, quiet: false, no_clear: false }
}

fn started(s: Settings, at: u64) -> (Supervisor, usize) {
    let mut sup = match Supervisor::prepare(s, &vec![true], true) {
        Ok(sup) => sup,
        Err(_) => panic!("setup should succeed"),
    };
    assert!(!sup.is_running());
    let steps = sup.start(at);
    assert!(sup.is_running());
    assert_eq!(sup.last_trigger_ms(), at);
    assert_eq!(steps.iter().filter(|s| matches!(s, Step::Spawn)).count(), 1);
    (sup, 1)
}

fn change(kind: ChangeKind, path: &str) -> WatchEvent {
    WatchEvent::Change(ChangeEvent { kind, paths: vec![path.to_string()] })
}

/// Feeds the events and returns the arrival times of those that restarted the
/// child, and the spawns in all.
fn feed(sup: &mut Supervisor, events: &[(ChangeKind, u64)]) -> (Vec<u64>, usize) {
    let mut restarted = Vec::new();
    let mut spawns = 0;
    for (kind, at) in events {
        match sup.handle(&change(*kind, "src/main.rs"), *at) {
            Reaction::Restart { steps, .. } => {
                restarted.push(*at);
                spawns += steps.iter().filter(|s| matches!(s, Step::Spawn)).count();
            }
            Reaction::Ignore => {}
            Reaction::ReportFailure => panic!("no failure was fed"),
        }
    }
    (restarted, spawns)
}

#[test]
fn debounce_burst_restarts_once() {
    let (mut sup, _) = started(settings(150), 0);
    let events = [
        (ChangeKind::Modified, 0),
        (ChangeKind::Modified, 40),
        (ChangeKind::Modified, 90),
        (ChangeKind::Modified, 200),
    ];
    let (restarted, spawns) = feed(&mut sup, &events);
    assert_eq!(restarted, vec![200]);
    assert_eq!(spawns, 1);
    assert_eq!(sup.last_trigger_ms(), 200);
}

#[test]
fn debounce_spaced_events_each_restart() {
    let (mut sup, _) = started(settings(150), 0);
    let events = [
        (ChangeKind::Created, 150),
        (ChangeKind::Modified, 300),
        (ChangeKind::Modified, 450),
    ];
    let (restarted, _) = feed(&mut sup, &events);
    assert_eq!(restarted, vec![150, 300, 450]);
}

#[test]
fn debounce_boundary_is_inclusive() {
    let (mut sup, _) = started(settings(100), 1000);
    let (restarted, _) = feed(&mut sup, &[(ChangeKind::Modified, 1099), (ChangeKind::Modified, 1100)]);
    assert_eq!(restarted, vec![1100]);
}

#[test]
fn zero_debounce_accepts_every_trigger() {
    let (mut sup, _) = started(settings(0), 5);
    let (restarted, _) = feed(&mut sup, &[(ChangeKind::Modified, 5), (ChangeKind::Created, 5)]);
    assert_eq!(restarted, vec![5, 5]);
}

#[test]
fn scenario_two_quick_edits_then_a_later_one() {
    let (mut sup, initial) = started(settings(100), 0);
    let events = [
        (ChangeKind::Modified, 200),
        (ChangeKind::Modified, 220),
        (ChangeKind::Modified, 370),
    ];
    let (restarted, spawns) = feed(&mut sup, &events);
    assert_eq!(restarted, vec![200, 370]);
    assert_eq!(initial + spawns, 3);
}

#[test]
fn other_kinds_never_restart() {
    let (mut sup, _) = started(settings(10), 0);
    let (restarted, _) = feed(&mut sup, &[(ChangeKind::Other, 500), (ChangeKind::Other, 10_000)]);
    assert!(restarted.is_empty());
    // The window did not move: a trigger just after the ignored events is accepted.
    let (restarted, _) = feed(&mut sup, &[(ChangeKind::Modified, 10_001)]);
    assert_eq!(restarted, vec![10_001]);
}

#[test]
fn other_kind_does_not_move_window() {
    let (mut sup, _) = started(settings(100), 0);
    feed(&mut sup, &[(ChangeKind::Modified, 100)]);
    feed(&mut sup, &[(ChangeKind::Other, 190)]);
    let (restarted, _) = feed(&mut sup, &[(ChangeKind::Modified, 200)]);
    assert_eq!(restarted, vec![200]);
}

#[test]
fn watch_failure_is_reported_and_changes_nothing() {
    let (mut sup, _) = started(settings(100), 0);
    assert!(matches!(sup.handle(&WatchEvent::Failure, 500), Reaction::ReportFailure));
    let (restarted, _) = feed(&mut sup, &[(ChangeKind::Modified, 100)]);
    assert_eq!(restarted, vec![100]);
}

#[test]
fn restart_terminates_before_spawning() {
    let (mut sup, _) = started(settings(0), 0);
    match sup.handle(&change(ChangeKind::Modified, "a/b.txt"), 1) {
        Reaction::Restart { changed, steps } => {
            assert_eq!(changed, Some("a/b.txt".to_string()));
            assert!(matches!(
                steps.as_slice(),
                [Step::Terminate, Step::ClearScreen, Step::Announce, Step::Separator, Step::Spawn]
            ));
        }
        _ => panic!("expected a restart"),
    }
}

#[test]
fn restart_plan_without_clearing() {
    let (mut sup, _) = started(Settings { debounce_ms: 0, quiet: false, no_clear: true }, 0);
    match sup.handle(&change(ChangeKind::Created, "x"), 1) {
        Reaction::Restart { steps, .. } => assert!(matches!(
            steps.as_slice(),
            [Step::Terminate, Step::Separator, Step::Announce, Step::Separator, Step::Spawn]
        )),
        _ => panic!("expected a restart"),
    }
}

#[test]
fn quiet_restart_plan() {
    let (mut sup, _) = started(Settings { debounce_ms: 0, quiet: true, no_clear: true }, 0);
    match sup.handle(&change(ChangeKind::Created, "x"), 1) {
        Reaction::Restart { steps, .. } => {
            assert!(matches!(steps.as_slice(), [Step::Terminate, Step::Spawn]))
        }
        _ => panic!("expected a restart"),
    }
    let (mut sup, _) = started(Settings { debounce_ms: 0, quiet: true, no_clear: false }, 0);
    match sup.handle(&change(ChangeKind::Created, "x"), 1) {
        Reaction::Restart { steps, .. } => {
            assert!(matches!(steps.as_slice(), [Step::Terminate, Step::ClearScreen, Step::Spawn]))
        }
        _ => panic!("expected a restart"),
    }
}

#[test]
fn event_without_paths_has_no_changed_path() {
    let (mut sup, _) = started(settings(0), 0);
    let ev = WatchEvent::Change(ChangeEvent { kind: ChangeKind::Modified, paths: vec![] });
    match sup.handle(&ev, 3) {
        Reaction::Restart { changed, .. } => assert_eq!(changed, None),
        _ => panic!("expected a restart"),
    }
}

#[test]
fn no_events_single_spawn() {
    let (_, spawns) = started(settings(150), 0);
    assert_eq!(spawns, 1);
}

#[test]
fn setup_fails_on_missing_path_anywhere() {
    for bad in 0..4 {
        let mut exist = vec![true; 4];
        exist[bad] = false;
        match Supervisor::prepare(settings(150), &exist, true) {
            Err(SetupError::PathNotFound(k)) => assert_eq!(k, bad),
            _ => panic!("a missing path must fail the setup"),
        }
    }
}

#[test]
fn setup_reports_first_missing_path() {
    match Supervisor::prepare(settings(150), &vec![true, false, false], false) {
        Err(SetupError::PathNotFound(k)) => assert_eq!(k, 1),
        _ => panic!("a missing path must fail the setup"),
    }
}

#[test]
fn setup_fails_on_unknown_command() {
    assert!(matches!(
        Supervisor::prepare(settings(150), &vec![true, true], false),
        Err(SetupError::CommandNotFound)
    ));
}
