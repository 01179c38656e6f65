use watchexec::{
    ChangeEvent, CommandRunner, DebounceAction, DebounceInput, Debouncer, EventPath,
    GlobsetFilterer, Rule, RunnerAction, RunnerInput, QUIESCENCE_MILLIS,
};

fn ignore_logs() -> GlobsetFilterer {
    GlobsetFilterer::new("/p", &vec![], &vec![Rule::new("*.log".to_string(), None)], &vec![])
        .unwrap()
}

fn file(path: &str) -> ChangeEvent {
    ChangeEvent::new("modify".to_string(), vec![EventPath::new(path.to_string(), false)])
}

fn fired_path(a: &DebounceAction) -> Option<String> {
    match a {
        DebounceAction::Fire(e) => Some(e.paths[0].path.clone()),
        _ => None,
    }
}

#[test]
fn burst_yields_one_trigger() {
    let f = ignore_logs();
    let mut d = Debouncer::new(QUIESCENCE_MILLIS);
    let mut fires = Vec::new();
    let mut actions = Vec::new();
    let a = d.step(&f, DebounceInput::Received(file("a.rs")));
    assert!(matches!(a, DebounceAction::Sleep { millis: 250 }));
    actions.push(d.step(&f, DebounceInput::WindowElapsed));
    for p in ["a.rs~", "b.rs", "x.log", "a.rs"] {
        actions.push(d.step(&f, DebounceInput::Received(file(p))));
    }
    actions.push(d.step(&f, DebounceInput::Drained));
    for a in &actions {
        if let Some(p) = fired_path(a) {
            fires.push(p);
        }
    }
    assert_eq!(fires, vec!["a.rs".to_string()]);
    assert!(matches!(actions[0], DebounceAction::TryReceive));
    assert!(d.is_waiting());
}

#[test]
fn rejected_event_does_not_start_window() {
    let f = ignore_logs();
    let mut d = Debouncer::new(100);
    assert!(matches!(d.step(&f, DebounceInput::Received(file("x.log"))), DebounceAction::Receive));
    assert!(d.is_waiting());
    assert!(matches!(
        d.step(&f, DebounceInput::Received(file("y.rs"))),
        DebounceAction::Sleep { millis: 100 }
    ));
    assert!(!d.is_waiting());
}

#[test]
fn event_after_drain_starts_new_cycle() {
    let f = ignore_logs();
    let mut d = Debouncer::new(QUIESCENCE_MILLIS);
    d.step(&f, DebounceInput::Received(file("a.rs")));
    d.step(&f, DebounceInput::WindowElapsed);
    let a = d.step(&f, DebounceInput::Drained);
    assert_eq!(fired_path(&a), Some("a.rs".to_string()));
    let b = d.step(&f, DebounceInput::Received(file("b.rs")));
    assert!(matches!(b, DebounceAction::Sleep { .. }));
    d.step(&f, DebounceInput::WindowElapsed);
    let c = d.step(&f, DebounceInput::Drained);
    assert_eq!(fired_path(&c), Some("b.rs".to_string()));
}

#[test]
fn out_of_turn_input_repeats_action() {
    let f = ignore_logs();
    let mut d = Debouncer::new(QUIESCENCE_MILLIS);
    assert!(matches!(d.step(&f, DebounceInput::Drained), DebounceAction::Receive));
    d.step(&f, DebounceInput::Received(file("a.rs")));
    assert!(matches!(d.step(&f, DebounceInput::Drained), DebounceAction::Sleep { .. }));
}

#[test]
fn restart_terminates_before_respawn() {
    let mut r = CommandRunner::new(true, false, false);
    assert_eq!(r.step(RunnerInput::Trigger), RunnerAction::Spawn { clear: false });
    assert_eq!(r.step(RunnerInput::Spawned(Some(41))), RunnerAction::Idle);
    assert_eq!(r.running_child(), Some(41));
    assert_eq!(r.step(RunnerInput::Trigger), RunnerAction::Terminate { pid: 41 });
    assert_eq!(r.running_child(), Some(41));
    assert_eq!(r.step(RunnerInput::Terminated(true)), RunnerAction::Spawn { clear: false });
    assert_eq!(r.running_child(), None);
    assert_eq!(r.step(RunnerInput::Spawned(Some(42))), RunnerAction::Idle);
    assert_eq!(r.running_child(), Some(42));
}

#[test]
fn failed_termination_skips_spawn() {
    let mut r = CommandRunner::new(true, true, false);
    r.step(RunnerInput::Spawned(Some(7)));
    assert_eq!(r.step(RunnerInput::Trigger), RunnerAction::Terminate { pid: 7 });
    assert_eq!(r.step(RunnerInput::Terminated(false)), RunnerAction::Idle);
    assert_eq!(r.running_child(), Some(7));
    assert_eq!(r.step(RunnerInput::Trigger), RunnerAction::Terminate { pid: 7 });
}

#[test]
fn without_restart_runs_overlap() {
    let mut r = CommandRunner::new(false, true, true);
    assert_eq!(r.step(RunnerInput::Trigger), RunnerAction::Spawn { clear: true });
    r.step(RunnerInput::Spawned(Some(5)));
    assert_eq!(r.running_child(), None);
    assert_eq!(r.step(RunnerInput::Trigger), RunnerAction::Spawn { clear: true });
    assert!(r.verbose());
    assert!(r.clear());
    assert!(!r.restart());
}

#[test]
fn spawn_failure_keeps_watching() {
    let mut r = CommandRunner::new(true, false, false);
    assert_eq!(r.step(RunnerInput::Trigger), RunnerAction::Spawn { clear: false });
    assert_eq!(r.step(RunnerInput::Spawned(None)), RunnerAction::Idle);
    assert_eq!(r.running_child(), None);
    assert_eq!(r.step(RunnerInput::Trigger), RunnerAction::Spawn { clear: false });
}

