use ide_presenter::commands::OpenDecision;
use ide_presenter::commands::ProjectEntry;
use ide_presenter::commands::find_project_id;
use ide_presenter::commands::plan_open;
use ide_presenter::commands::project_names;
use ide_presenter::errors::BackendError;

fn listing() -> Vec<ProjectEntry> {
    vec![
        ProjectEntry { name: String::from("Foo"), id: 1 },
        ProjectEntry { name: String::from("Bar"), id: 2 },
    ]
}

#[test]
fn open_foo_issues_one_open_call_with_id_one() {
    let decision = plan_open(&String::from("Foo"), Ok(listing()));
    assert!(matches!(decision, OpenDecision::OpenWithId { id: 1 }));
}

#[test]
fn open_bar_issues_open_call_with_id_two() {
    let decision = plan_open(&String::from("Bar"), Ok(listing()));
    assert!(matches!(decision, OpenDecision::OpenWithId { id: 2 }));
}

#[test]
fn open_baz_issues_no_open_call_and_one_report() {
    let decision = plan_open(&String::from("Baz"), Ok(listing()));
    match decision {
        OpenDecision::Report { message } => {
            assert_eq!(message, "Could not find project with name Baz");
        },
        OpenDecision::OpenWithId { .. } => panic!("unexpected open call"),
    }
}

#[test]
fn name_matching_is_case_sensitive() {
    let decision = plan_open(&String::from("foo"), Ok(listing()));
    assert!(matches!(decision, OpenDecision::Report { .. }));
}

#[test]
fn first_matching_entry_wins() {
    let twice = vec![
        ProjectEntry { name: String::from("Foo"), id: 8 },
        ProjectEntry { name: String::from("Foo"), id: 9 },
    ];
    assert_eq!(find_project_id(&twice, &String::from("Foo")), Some(8));
}

#[test]
fn empty_listing_matches_nothing() {
    let empty: Vec<ProjectEntry> = Vec::new();
    assert_eq!(find_project_id(&empty, &String::from("Foo")), None);
}

#[test]
fn listing_failure_is_reported_distinctly() {
    let failed = Err(BackendError { message: String::from("timeout") });
    let decision = plan_open(&String::from("Foo"), failed);
    match decision {
        OpenDecision::Report { message } => {
            assert_eq!(message, "Could not list projects: timeout");
        },
        OpenDecision::OpenWithId { .. } => panic!("unexpected open call"),
    }
}

#[test]
fn project_names_keep_listing_order() {
    let names = project_names(&listing());
    assert_eq!(names, vec![String::from("Foo"), String::from("Bar")]);
}
