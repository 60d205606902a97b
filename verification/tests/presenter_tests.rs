use ide_presenter::commands::ProjectEntry;
use ide_presenter::errors::BackendError;
use ide_presenter::notifications::BackendNotification;
use ide_presenter::notifications::Notification;
use ide_presenter::notifications::StatusNotification;
use ide_presenter::presenter::Action;
use ide_presenter::presenter::Event;
use ide_presenter::presenter::Presenter;
use ide_presenter::session::InitResult;
use ide_presenter::session::UndoRedoHistory;
use ide_presenter::view_state::ViewState;

fn listing() -> Vec<ProjectEntry> {
    vec![
        ProjectEntry { name: String::from("Foo"), id: 1 },
        ProjectEntry { name: String::from("Bar"), id: 2 },
    ]
}

fn payload(graph: u64, text: &str) -> InitResult {
    InitResult {
        view_handle: 1,
        graph,
        main_module_text: String::from(text),
        main_module: 3,
        history: UndoRedoHistory::new(),
    }
}

#[test]
fn startup_requests_init_and_welcome_listing() {
    let mut p = Presenter::new();
    let acts = p.init();
    assert_eq!(acts.len(), 2);
    assert!(matches!(&acts[0], Action::StartInitialization));
    assert!(matches!(&acts[1], Action::ListProjectsForWelcome));
    assert_eq!(p.screen, ViewState::WelcomeScreen);
}

#[test]
fn backend_notification_rebuilds_session_and_switches() {
    let mut p = Presenter::new();
    let acts = p.step(Event::Notification {
        item: Notification::Backend(BackendNotification::ProjectOpened),
    });
    assert_eq!(acts.len(), 2);
    assert!(matches!(&acts[0], Action::StartInitialization));
    assert!(matches!(&acts[1], Action::SwitchToProjectScreen));
    assert_eq!(p.screen, ViewState::ProjectOpened);
    assert!(p.sessions.current().is_none());
}

#[test]
fn screen_never_returns_to_welcome() {
    let mut p = Presenter::new();
    p.step(Event::UserCreateProject);
    assert_eq!(p.screen, ViewState::ProjectOpened);
    p.step(Event::Notification {
        item: Notification::Status(StatusNotification::Event { label: String::from("hello") }),
    });
    p.step(Event::InitCompleted {
        outcome: Err(BackendError { message: String::from("boom") }),
    });
    p.step(Event::Notification {
        item: Notification::Backend(BackendNotification::NewProjectCreated),
    });
    p.step(Event::CreateCompleted { outcome: Ok(()) });
    assert_eq!(p.screen, ViewState::ProjectOpened);
}

#[test]
fn status_event_reaches_status_bar() {
    let mut p = Presenter::new();
    let acts = p.step(Event::Notification {
        item: Notification::Status(StatusNotification::Event { label: String::from("compiled") }),
    });
    assert_eq!(acts.len(), 1);
    match &acts[0] {
        Action::AddEventLabel { label } => assert_eq!(label, "compiled"),
        _ => panic!("wrong action"),
    }
}

#[test]
fn background_task_lifecycle_drives_one_indicator() {
    let mut p = Presenter::new();
    let acts = p.step(Event::Notification {
        item: Notification::Status(StatusNotification::BackgroundTaskStarted {
            label: String::from("Compiling standard library"),
            handle: 3,
        }),
    });
    assert_eq!(acts.len(), 1);
    match &acts[0] {
        Action::AddProcessLabel { label, handle } => {
            assert_eq!(label, "Compiling standard library");
            assert_eq!(*handle, 3);
        },
        _ => panic!("wrong action"),
    }
    let acts = p.step(Event::ProcessEntryCreated { handle: 3, view_handle: 77 });
    assert!(acts.is_empty());
    assert!(!p.processes.is_empty());
    let acts = p.step(Event::Notification {
        item: Notification::Status(StatusNotification::BackgroundTaskFinished { handle: 3 }),
    });
    assert_eq!(acts.len(), 1);
    match &acts[0] {
        Action::FinishProcess { view_handle } => assert_eq!(*view_handle, 77),
        _ => panic!("wrong action"),
    }
    assert!(p.processes.is_empty());
}

#[test]
fn finish_for_unknown_task_warns_only() {
    let mut p = Presenter::new();
    let acts = p.step(Event::Notification {
        item: Notification::Status(StatusNotification::BackgroundTaskFinished { handle: 9 }),
    });
    assert_eq!(acts.len(), 1);
    assert!(matches!(&acts[0], Action::WarnUnknownProcess { handle: 9 }));
    assert!(p.processes.is_empty());
}

#[test]
fn successful_init_installs_fresh_session() {
    let mut p = Presenter::new();
    p.init();
    let mut history = UndoRedoHistory::new();
    history.record_edit(5);
    let acts = p.step(Event::InitCompleted {
        outcome: Ok(InitResult {
            view_handle: 1,
            graph: 2,
            main_module_text: String::from("main = 1"),
            main_module: 3,
            history,
        }),
    });
    assert!(acts.is_empty());
    match p.sessions.current() {
        Some(s) => {
            assert_eq!(s.history.len(), 0);
            assert_eq!(s.main_module_text, "main = 1");
        },
        None => panic!("no session installed"),
    }
}

#[test]
fn failed_init_reports_on_status_channel() {
    let mut p = Presenter::new();
    p.init();
    let acts = p.step(Event::InitCompleted {
        outcome: Err(BackendError { message: String::from("no engine") }),
    });
    assert_eq!(acts.len(), 1);
    match &acts[0] {
        Action::ReportStatusEvent { label } => {
            assert_eq!(label, "Failed to initialize project: no engine");
        },
        _ => panic!("wrong action"),
    }
    assert!(p.sessions.current().is_none());
}

#[test]
fn overlapping_requests_last_completion_wins_end_to_end() {
    let mut p = Presenter::new();
    p.step(Event::Notification {
        item: Notification::Backend(BackendNotification::ProjectOpened),
    });
    p.step(Event::Notification {
        item: Notification::Backend(BackendNotification::NewProjectCreated),
    });
    p.step(Event::InitCompleted { outcome: Ok(payload(10, "a")) });
    p.step(Event::InitCompleted { outcome: Ok(payload(20, "b")) });
    match p.sessions.current() {
        Some(s) => assert_eq!(s.graph, 20),
        None => panic!("no session installed"),
    }
}

#[test]
fn user_open_lists_then_opens_by_id() {
    let mut p = Presenter::new();
    let acts = p.step(Event::UserOpenProject { name: String::from("Foo") });
    assert_eq!(acts.len(), 2);
    assert!(matches!(&acts[0], Action::ListProjectsToOpen { name } if name == "Foo"));
    assert!(matches!(&acts[1], Action::SwitchToProjectScreen));
    let acts = p.step(Event::OpenListArrived {
        name: String::from("Foo"),
        outcome: Ok(listing()),
    });
    assert_eq!(acts.len(), 1);
    assert!(matches!(&acts[0], Action::OpenProject { id: 1, name } if name == "Foo"));
}

#[test]
fn open_for_unknown_name_reports_once() {
    let mut p = Presenter::new();
    let acts = p.step(Event::OpenListArrived {
        name: String::from("Baz"),
        outcome: Ok(listing()),
    });
    assert_eq!(acts.len(), 1);
    match &acts[0] {
        Action::ReportStatusEvent { label } => {
            assert_eq!(label, "Could not find project with name Baz");
        },
        _ => panic!("wrong action"),
    }
}

#[test]
fn open_failure_is_reported_on_status_channel() {
    let mut p = Presenter::new();
    let acts = p.step(Event::OpenCompleted {
        name: String::from("Foo"),
        outcome: Err(BackendError { message: String::from("locked") }),
    });
    assert_eq!(acts.len(), 1);
    match &acts[0] {
        Action::ReportStatusEvent { label } => {
            assert_eq!(label, "Could not open project Foo: locked");
        },
        _ => panic!("wrong action"),
    }
}

#[test]
fn create_request_switches_and_calls_backend() {
    let mut p = Presenter::new();
    let acts = p.step(Event::UserCreateProject);
    assert_eq!(acts.len(), 2);
    assert!(matches!(&acts[0], Action::CreateNewProject));
    assert!(matches!(&acts[1], Action::SwitchToProjectScreen));
}

#[test]
fn create_failure_is_reported_on_status_channel() {
    let mut p = Presenter::new();
    let acts = p.step(Event::CreateCompleted {
        outcome: Err(BackendError { message: String::from("quota") }),
    });
    assert_eq!(acts.len(), 1);
    match &acts[0] {
        Action::ReportStatusEvent { label } => {
            assert_eq!(label, "Could not create new project: quota");
        },
        _ => panic!("wrong action"),
    }
}

#[test]
fn welcome_screen_gets_project_names() {
    let mut p = Presenter::new();
    let acts = p.step(Event::WelcomeListArrived { outcome: Ok(listing()) });
    assert_eq!(acts.len(), 1);
    match &acts[0] {
        Action::PopulateProjectList { names } => {
            assert_eq!(names, &vec![String::from("Foo"), String::from("Bar")]);
        },
        _ => panic!("wrong action"),
    }
}

#[test]
fn welcome_listing_failure_is_reported() {
    let mut p = Presenter::new();
    let acts = p.step(Event::WelcomeListArrived {
        outcome: Err(BackendError { message: String::from("down") }),
    });
    assert_eq!(acts.len(), 1);
    match &acts[0] {
        Action::ReportStatusEvent { label } => {
            assert_eq!(label, "Unable to get list of projects: down");
        },
        _ => panic!("wrong action"),
    }
}

#[test]
fn successful_open_completion_needs_no_reaction() {
    let mut p = Presenter::new();
    let acts = p.step(Event::OpenCompleted { name: String::from("Foo"), outcome: Ok(()) });
    assert!(acts.is_empty());
}
