use ide_presenter::registry::FinishOutcome;
use ide_presenter::registry::ProcessRegistry;

#[test]
fn unknown_finish_leaves_registry_unchanged() {
    let mut r = ProcessRegistry::new();
    r.on_started(5, 100);
    let out = r.on_finished(9);
    assert_eq!(out, FinishOutcome::UnknownHandle);
    assert!(!r.is_empty());
    let out2 = r.on_finished(5);
    assert_eq!(out2, FinishOutcome::Retire { view_handle: 100 });
}

#[test]
fn unknown_finish_on_empty_registry_warns_only() {
    let mut r = ProcessRegistry::new();
    let out = r.on_finished(1);
    assert_eq!(out, FinishOutcome::UnknownHandle);
    assert!(r.is_empty());
}

#[test]
fn start_then_finish_leaves_registry_empty() {
    let mut r = ProcessRegistry::new();
    r.on_started(7, 40);
    let out = r.on_finished(7);
    assert_eq!(out, FinishOutcome::Retire { view_handle: 40 });
    assert!(r.is_empty());
}

#[test]
fn restarted_handle_keeps_latest_view_handle() {
    let mut r = ProcessRegistry::new();
    r.on_started(7, 40);
    r.on_started(7, 41);
    let out = r.on_finished(7);
    assert_eq!(out, FinishOutcome::Retire { view_handle: 41 });
    assert!(r.is_empty());
}

#[test]
fn independent_tasks_are_tracked_independently() {
    let mut r = ProcessRegistry::new();
    r.on_started(1, 10);
    r.on_started(2, 20);
    assert_eq!(r.on_finished(1), FinishOutcome::Retire { view_handle: 10 });
    assert!(!r.is_empty());
    assert_eq!(r.on_finished(2), FinishOutcome::Retire { view_handle: 20 });
    assert!(r.is_empty());
}
