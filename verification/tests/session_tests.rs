use ide_presenter::errors::BackendError;
use ide_presenter::session::InitResult;
use ide_presenter::session::Session;
use ide_presenter::session::SessionManager;
use ide_presenter::session::UndoRedoHistory;

fn payload(graph: u64, text: &str) -> InitResult {
    InitResult {
        view_handle: 1,
        graph,
        main_module_text: String::from(text),
        main_module: 3,
        history: UndoRedoHistory::new(),
    }
}

#[test]
fn new_session_history_is_empty_despite_init_edits() {
    let mut history = UndoRedoHistory::new();
    history.record_edit(11);
    history.record_edit(12);
    assert_eq!(history.len(), 2);
    let r = InitResult {
        view_handle: 1,
        graph: 2,
        main_module_text: String::from("main = 0"),
        main_module: 3,
        history,
    };
    let s = Session::from_init(r);
    assert_eq!(s.history.len(), 0);
    assert_eq!(s.graph, 2);
    assert_eq!(s.main_module_text, "main = 0");
}

#[test]
fn last_completed_initialization_wins() {
    let mut m = SessionManager::new();
    m.begin_request();
    m.begin_request();
    assert!(m.complete_request(Ok(payload(10, "a"))).is_none());
    assert!(m.complete_request(Ok(payload(20, "b"))).is_none());
    match m.current() {
        Some(s) => assert_eq!(s.graph, 20),
        None => panic!("no session installed"),
    }
}

#[test]
fn last_completed_initialization_wins_reversed_order() {
    let mut m = SessionManager::new();
    m.begin_request();
    m.begin_request();
    assert!(m.complete_request(Ok(payload(20, "b"))).is_none());
    assert!(m.complete_request(Ok(payload(10, "a"))).is_none());
    match m.current() {
        Some(s) => assert_eq!(s.graph, 10),
        None => panic!("no session installed"),
    }
}

#[test]
fn failed_initialization_reports_and_installs_nothing() {
    let mut m = SessionManager::new();
    m.begin_request();
    let report = m.complete_request(Err(BackendError { message: String::from("socket closed") }));
    assert_eq!(report.unwrap(), "Failed to initialize project: socket closed");
    assert!(m.current().is_none());
}

#[test]
fn stale_failure_does_not_clobber_newer_session() {
    let mut m = SessionManager::new();
    m.begin_request();
    m.begin_request();
    assert!(m.complete_request(Ok(payload(20, "b"))).is_none());
    let report = m.complete_request(Err(BackendError { message: String::from("late") }));
    assert!(report.is_some());
    match m.current() {
        Some(s) => assert_eq!(s.graph, 20),
        None => panic!("newer session was lost"),
    }
}

#[test]
fn begin_request_clears_the_slot_synchronously() {
    let mut m = SessionManager::new();
    m.begin_request();
    assert!(m.complete_request(Ok(payload(10, "a"))).is_none());
    assert!(m.current().is_some());
    m.begin_request();
    assert!(m.current().is_none());
}
