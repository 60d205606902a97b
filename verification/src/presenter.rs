//! The presenter: one verified reaction to every inbound event.
//!
//! The surrounding application owns the asynchronous machinery: it
//! subscribes to the backend's notification stream, runs the backend
//! calls, and performs view mutations. Everything it must decide is
//! delegated to [`Presenter::step`]: the application hands in each event
//! as it arrives and performs the returned actions. The whole reaction —
//! how the session slot, the process registry and the screen switch
//! change, and which actions come back — is pinned down by the
//! specification-level [`step_model`].

use vstd::prelude::*;
use crate::commands::OpenDecision;
use crate::commands::ProjectEntry;
use crate::commands::ProjectEntryView;
use crate::commands::find_project;
use crate::commands::names_of;
use crate::commands::plan_open;
use crate::commands::project_names;
use crate::errors::BackendError;
use crate::errors::create_failure_message;
use crate::errors::create_failure_report;
use crate::errors::init_failure_message;
use crate::errors::listing_failure_message;
use crate::errors::open_failure_message;
use crate::errors::open_failure_report;
use crate::errors::project_not_found_message;
use crate::errors::welcome_listing_failure_message;
use crate::errors::welcome_listing_failure_report;
use crate::notifications::BackendNotification;
use crate::notifications::Notification;
use crate::notifications::NotificationView;
use crate::notifications::StatusNotification;
use crate::notifications::StatusNotificationView;
use crate::registry::FinishOutcome;
use crate::registry::ProcessRegistry;
use crate::session::InitResult;
use crate::session::InitResultView;
use crate::session::SessionManager;
use crate::session::SessionView;
use crate::session::session_of;
use crate::session::slot_after_begin;
use crate::session::slot_after_completion;
use crate::view_state::ViewState;
use crate::view_state::switched;

verus! {

/// An inbound event: a stream notification, a user intent, or the
/// completion of an asynchronous backend call the presenter asked for.
#[derive(Debug)]
#[allow(inconsistent_fields)]
pub enum Event {
    /// The next item of the unified notification stream.
    Notification { item: Notification },
    /// The view created the progress indicator the presenter asked for
    /// and issued this identifier for it.
    ProcessEntryCreated { handle: u64, view_handle: u64 },
    /// The session initialization the presenter started has completed.
    InitCompleted { outcome: Result<InitResult, BackendError> },
    /// The user asked to open the project with this name.
    UserOpenProject { name: String },
    /// The user asked to create a fresh project.
    UserCreateProject,
    /// The project listing requested on behalf of an open command.
    OpenListArrived { name: String, outcome: Result<Vec<ProjectEntry>, BackendError> },
    /// The open call issued for a matched project has completed.
    OpenCompleted { name: String, outcome: Result<(), BackendError> },
    /// The create call has completed.
    CreateCompleted { outcome: Result<(), BackendError> },
    /// The project listing requested to fill the welcome screen.
    WelcomeListArrived { outcome: Result<Vec<ProjectEntry>, BackendError> },
}

/// The mathematical shape of an event.
#[allow(inconsistent_fields)]
pub enum EventView {
    Notification { item: NotificationView },
    ProcessEntryCreated { handle: u64, view_handle: u64 },
    InitCompleted { outcome: Result<InitResultView, Seq<char>> },
    UserOpenProject { name: Seq<char> },
    UserCreateProject,
    OpenListArrived { name: Seq<char>, outcome: Result<Seq<ProjectEntryView>, Seq<char>> },
    OpenCompleted { name: Seq<char>, outcome: Result<(), Seq<char>> },
    CreateCompleted { outcome: Result<(), Seq<char>> },
    WelcomeListArrived { outcome: Result<Seq<ProjectEntryView>, Seq<char>> },
}

impl DeepView for Event {
    type V = EventView;

    open spec fn deep_view(&self) -> EventView {
        match self {
            Event::Notification { item } => EventView::Notification { item: item.deep_view() },
            Event::ProcessEntryCreated { handle, view_handle } => EventView::ProcessEntryCreated {
                handle: *handle,
                view_handle: *view_handle,
            },
            Event::InitCompleted { outcome } => EventView::InitCompleted {
                outcome: match outcome {
                    Ok(r) => Ok(r.deep_view()),
                    Err(e) => Err(e.deep_view()),
                },
            },
            Event::UserOpenProject { name } => EventView::UserOpenProject { name: name@ },
            Event::UserCreateProject => EventView::UserCreateProject,
            Event::OpenListArrived { name, outcome } => EventView::OpenListArrived {
                name: name@,
                outcome: match outcome {
                    Ok(l) => Ok(l.deep_view()),
                    Err(e) => Err(e.deep_view()),
                },
            },
            Event::OpenCompleted { name, outcome } => EventView::OpenCompleted {
                name: name@,
                outcome: match outcome {
                    Ok(u) => Ok(*u),
                    Err(e) => Err(e.deep_view()),
                },
            },
            Event::CreateCompleted { outcome } => EventView::CreateCompleted {
                outcome: match outcome {
                    Ok(u) => Ok(*u),
                    Err(e) => Err(e.deep_view()),
                },
            },
            Event::WelcomeListArrived { outcome } => EventView::WelcomeListArrived {
                outcome: match outcome {
                    Ok(l) => Ok(l.deep_view()),
                    Err(e) => Err(e.deep_view()),
                },
            },
        }
    }
}

/// An outbound action: a backend call to start or a view mutation to
/// perform. The application executes them in order; none may block the
/// event loop, so backend calls are started, not awaited, and their
/// completions come back as events.
#[derive(Debug)]
pub enum Action {
    /// Start the asynchronous initialization of a session for the
    /// current project; its completion comes back as
    /// [`Event::InitCompleted`].
    StartInitialization,
    /// Detach the welcome screen and attach the project screen.
    SwitchToProjectScreen,
    /// Show a one-off event label in the status bar.
    AddEventLabel { label: String },
    /// Create a progress indicator for this backend task; the view's
    /// identifier for it comes back as [`Event::ProcessEntryCreated`].
    AddProcessLabel { label: String, handle: u64 },
    /// Retire the progress indicator with this view identifier.
    FinishProcess { view_handle: u64 },
    /// Log that a finish arrived for a task no indicator displays.
    WarnUnknownProcess { handle: u64 },
    /// Publish this report on the status channel.
    ReportStatusEvent { label: String },
    /// List the backend's projects to resolve this open request; the
    /// listing comes back as [`Event::OpenListArrived`].
    ListProjectsToOpen { name: String },
    /// Open the project with this identifier; the completion comes back
    /// as [`Event::OpenCompleted`] carrying the same name.
    OpenProject { id: u64, name: String },
    /// Create a fresh project; the completion comes back as
    /// [`Event::CreateCompleted`].
    CreateNewProject,
    /// List the backend's projects to fill the welcome screen; the
    /// listing comes back as [`Event::WelcomeListArrived`].
    ListProjectsForWelcome,
    /// Show these names on the welcome screen.
    PopulateProjectList { names: Vec<String> },
}

/// The mathematical shape of an action.
pub enum ActionView {
    StartInitialization,
    SwitchToProjectScreen,
    AddEventLabel { label: Seq<char> },
    AddProcessLabel { label: Seq<char>, handle: u64 },
    FinishProcess { view_handle: u64 },
    WarnUnknownProcess { handle: u64 },
    ReportStatusEvent { label: Seq<char> },
    ListProjectsToOpen { name: Seq<char> },
    OpenProject { id: u64, name: Seq<char> },
    CreateNewProject,
    ListProjectsForWelcome,
    PopulateProjectList { names: Seq<Seq<char>> },
}

impl DeepView for Action {
    type V = ActionView;

    open spec fn deep_view(&self) -> ActionView {
        match self {
            Action::StartInitialization => ActionView::StartInitialization,
            Action::SwitchToProjectScreen => ActionView::SwitchToProjectScreen,
            Action::AddEventLabel { label } => ActionView::AddEventLabel { label: label@ },
            Action::AddProcessLabel { label, handle } => ActionView::AddProcessLabel {
                label: label@,
                handle: *handle,
            },
            Action::FinishProcess { view_handle } => ActionView::FinishProcess {
                view_handle: *view_handle,
            },
            Action::WarnUnknownProcess { handle } => ActionView::WarnUnknownProcess {
                handle: *handle,
            },
            Action::ReportStatusEvent { label } => ActionView::ReportStatusEvent { label: label@ },
            Action::ListProjectsToOpen { name } => ActionView::ListProjectsToOpen { name: name@ },
            Action::OpenProject { id, name } => ActionView::OpenProject { id: *id, name: name@ },
            Action::CreateNewProject => ActionView::CreateNewProject,
            Action::ListProjectsForWelcome => ActionView::ListProjectsForWelcome,
            Action::PopulateProjectList { names } => ActionView::PopulateProjectList {
                names: names.deep_view(),
            },
        }
    }
}

/// The mathematical shape of the presenter's whole state.
pub struct PresenterView {
    pub session: Option<SessionView>,
    pub processes: Map<u64, u64>,
    pub screen: ViewState,
}

/// The presenter's state: the session slot, the process registry and the
/// screen switch.
#[derive(Debug)]
pub struct Presenter {
    /// The session lifecycle manager, owner of the single session slot.
    pub sessions: SessionManager,
    /// The registry of outstanding background tasks.
    pub processes: ProcessRegistry,
    /// Which top-level screen is attached.
    pub screen: ViewState,
}

impl View for Presenter {
    type V = PresenterView;

    open spec fn view(&self) -> PresenterView {
        PresenterView { session: self.sessions@, processes: self.processes@, screen: self.screen }
    }
}

/// The state and actions after the presenter's startup: the slot is
/// cleared, a first initialization is started for whatever project is
/// already current, and the welcome screen's listing is requested.
pub open spec fn init_model(s: PresenterView) -> (PresenterView, Seq<ActionView>) {
    (
        PresenterView { session: slot_after_begin(s.session), ..s },
        seq![ActionView::StartInitialization, ActionView::ListProjectsForWelcome],
    )
}

/// The presenter's reaction to one event: the state it moves to and the
/// actions the application must perform, in order.
pub open spec fn step_model(s: PresenterView, e: EventView) -> (PresenterView, Seq<ActionView>) {
    match e {
        EventView::Notification { item } => match item {
            NotificationView::Status(sn) => match sn {
                StatusNotificationView::Event { label } => (
                    s,
                    seq![ActionView::AddEventLabel { label }],
                ),
                StatusNotificationView::BackgroundTaskStarted { label, handle } => (
                    s,
                    seq![ActionView::AddProcessLabel { label, handle }],
                ),
                StatusNotificationView::BackgroundTaskFinished { handle } => {
                    if s.processes.contains_key(handle) {
                        (
                            PresenterView { processes: s.processes.remove(handle), ..s },
                            seq![ActionView::FinishProcess { view_handle: s.processes[handle] }],
                        )
                    } else {
                        (s, seq![ActionView::WarnUnknownProcess { handle }])
                    }
                },
            },
            NotificationView::Backend(_) => (
                PresenterView {
                    session: slot_after_begin(s.session),
                    screen: switched(s.screen),
                    ..s
                },
                seq![ActionView::StartInitialization, ActionView::SwitchToProjectScreen],
            ),
        },
        EventView::ProcessEntryCreated { handle, view_handle } => (
            PresenterView { processes: s.processes.insert(handle, view_handle), ..s },
            Seq::empty(),
        ),
        EventView::InitCompleted { outcome } => match outcome {
            Ok(r) => (
                PresenterView { session: slot_after_completion(s.session, Ok(r)), ..s },
                Seq::empty(),
            ),
            Err(m) => (s, seq![ActionView::ReportStatusEvent { label: init_failure_message(m) }]),
        },
        EventView::UserOpenProject { name } => (
            PresenterView { screen: switched(s.screen), ..s },
            seq![ActionView::ListProjectsToOpen { name }, ActionView::SwitchToProjectScreen],
        ),
        EventView::UserCreateProject => (
            PresenterView { screen: switched(s.screen), ..s },
            seq![ActionView::CreateNewProject, ActionView::SwitchToProjectScreen],
        ),
        EventView::OpenListArrived { name, outcome } => match outcome {
            Ok(listing) => match find_project(listing, name) {
                Some(id) => (s, seq![ActionView::OpenProject { id, name }]),
                None => (
                    s,
                    seq![
                        ActionView::ReportStatusEvent {
                            label: project_not_found_message(name),
                        },
                    ],
                ),
            },
            Err(m) => (
                s,
                seq![ActionView::ReportStatusEvent { label: listing_failure_message(m) }],
            ),
        },
        EventView::OpenCompleted { name, outcome } => match outcome {
            Ok(_) => (s, Seq::empty()),
            Err(m) => (
                s,
                seq![ActionView::ReportStatusEvent { label: open_failure_message(name, m) }],
            ),
        },
        EventView::CreateCompleted { outcome } => match outcome {
            Ok(_) => (s, Seq::empty()),
            Err(m) => (
                s,
                seq![ActionView::ReportStatusEvent { label: create_failure_message(m) }],
            ),
        },
        EventView::WelcomeListArrived { outcome } => match outcome {
            Ok(listing) => (
                s,
                seq![ActionView::PopulateProjectList { names: names_of(listing) }],
            ),
            Err(m) => (
                s,
                seq![
                    ActionView::ReportStatusEvent {
                        label: welcome_listing_failure_message(m),
                    },
                ],
            ),
        },
    }
}

fn no_actions() -> (v: Vec<Action>)
    ensures
        v.deep_view() == Seq::<ActionView>::empty(),
{
    let v: Vec<Action> = Vec::new();
    proof {
        assert(v.deep_view() =~= Seq::<ActionView>::empty());
    }
    v
}

fn one_action(a: Action) -> (v: Vec<Action>)
    ensures
        v.deep_view() == seq![a.deep_view()],
{
    let mut v: Vec<Action> = Vec::new();
    v.push(a);
    proof {
        assert(v.deep_view() =~= seq![a.deep_view()]);
    }
    v
}

fn two_actions(a: Action, b: Action) -> (v: Vec<Action>)
    ensures
        v.deep_view() == seq![a.deep_view(), b.deep_view()],
{
    let mut v: Vec<Action> = Vec::new();
    v.push(a);
    v.push(b);
    proof {
        assert(v.deep_view() =~= seq![a.deep_view(), b.deep_view()]);
    }
    v
}

impl Presenter {
    /// A presenter before startup: no session, no outstanding task, the
    /// welcome screen attached.
    pub fn new() -> (p: Presenter)
        ensures
            p@.session is None,
            p@.processes == Map::<u64, u64>::empty(),
            p@.screen == ViewState::WelcomeScreen,
    {
        Presenter {
            sessions: SessionManager::new(),
            processes: ProcessRegistry::new(),
            screen: ViewState::initial(),
        }
    }

    /// Start the presenter up, per [`init_model`].
    pub fn init(&mut self) -> (acts: Vec<Action>)
        ensures
            ({
                let r = init_model(old(self)@);
                final(self)@ == r.0 && acts.deep_view() == r.1
            }),
    {
        self.sessions.begin_request();
        two_actions(Action::StartInitialization, Action::ListProjectsForWelcome)
    }

    /// React to one inbound event, per [`step_model`].
    pub fn step(&mut self, event: Event) -> (acts: Vec<Action>)
        ensures
            ({
                let r = step_model(old(self)@, event.deep_view());
                final(self)@ == r.0 && acts.deep_view() == r.1
            }),
    {
        match event {
            Event::Notification { item } => match item {
                Notification::Status(sn) => match sn {
                    StatusNotification::Event { label } => one_action(
                        Action::AddEventLabel { label },
                    ),
                    StatusNotification::BackgroundTaskStarted { label, handle } => one_action(
                        Action::AddProcessLabel { label, handle },
                    ),
                    StatusNotification::BackgroundTaskFinished { handle } => {
                        match self.processes.on_finished(handle) {
                            FinishOutcome::Retire { view_handle } => one_action(
                                Action::FinishProcess { view_handle },
                            ),
                            FinishOutcome::UnknownHandle => one_action(
                                Action::WarnUnknownProcess { handle },
                            ),
                        }
                    },
                },
                Notification::Backend(_) => {
                    self.sessions.begin_request();
                    self.screen.switch_view();
                    two_actions(Action::StartInitialization, Action::SwitchToProjectScreen)
                },
            },
            Event::ProcessEntryCreated { handle, view_handle } => {
                self.processes.on_started(handle, view_handle);
                no_actions()
            },
            Event::InitCompleted { outcome } => {
                match self.sessions.complete_request(outcome) {
                    Some(report) => one_action(Action::ReportStatusEvent { label: report }),
                    None => no_actions(),
                }
            },
            Event::UserOpenProject { name } => {
                self.screen.switch_view();
                two_actions(
                    Action::ListProjectsToOpen { name },
                    Action::SwitchToProjectScreen,
                )
            },
            Event::UserCreateProject => {
                self.screen.switch_view();
                two_actions(Action::CreateNewProject, Action::SwitchToProjectScreen)
            },
            Event::OpenListArrived { name, outcome } => match plan_open(&name, outcome) {
                OpenDecision::OpenWithId { id } => one_action(Action::OpenProject { id, name }),
                OpenDecision::Report { message } => one_action(
                    Action::ReportStatusEvent { label: message },
                ),
            },
            Event::OpenCompleted { name, outcome } => match outcome {
                Ok(_) => no_actions(),
                Err(e) => one_action(
                    Action::ReportStatusEvent { label: open_failure_report(name.as_str(), &e) },
                ),
            },
            Event::CreateCompleted { outcome } => match outcome {
                Ok(_) => no_actions(),
                Err(e) => one_action(
                    Action::ReportStatusEvent { label: create_failure_report(&e) },
                ),
            },
            Event::WelcomeListArrived { outcome } => match outcome {
                Ok(listing) => one_action(
                    Action::PopulateProjectList { names: project_names(&listing) },
                ),
                Err(e) => one_action(
                    Action::ReportStatusEvent { label: welcome_listing_failure_report(&e) },
                ),
            },
        }
    }
}

/// Whether an event makes the view switch to the project screen: a user
/// open or create intent, or a backend notification that a project
/// became current.
pub open spec fn is_switch_trigger(e: EventView) -> bool {
    match e {
        EventView::Notification { item } => item matches NotificationView::Backend(_),
        EventView::UserOpenProject { .. } => true,
        EventView::UserCreateProject => true,
        _ => false,
    }
}

/// The state after a whole sequence of events, delivered in order.
pub open spec fn run_model(s: PresenterView, events: Seq<EventView>) -> PresenterView
    decreases events.len(),
{
    if events.len() == 0 {
        s
    } else {
        run_model(step_model(s, events.first()).0, events.drop_first())
    }
}

/// Law: one step switches the screen exactly on the switch triggers, and
/// no step ever leaves the project screen once it is attached.
pub proof fn lemma_no_step_leaves_project_screen(s: PresenterView, e: EventView)
    ensures
        is_switch_trigger(e) ==> step_model(s, e).0.screen == ViewState::ProjectOpened,
        !is_switch_trigger(e) ==> step_model(s, e).0.screen == s.screen,
        s.screen == ViewState::ProjectOpened ==> step_model(s, e).0.screen
            == ViewState::ProjectOpened,
{
}

/// Law: when two session requests race — both backend notifications
/// arrive, and so both clear the slot, before either initialization
/// completes — the slot ends up holding exactly the session of whichever
/// successful initialization completed last, irrespective of the order
/// the requests were issued in.
pub proof fn lemma_racing_requests_last_completion_wins(
    s: PresenterView,
    first_issued: BackendNotification,
    then_issued: BackendNotification,
    first_done: InitResultView,
    last_done: InitResultView,
)
    ensures
        ({
            let events = seq![
                EventView::Notification { item: NotificationView::Backend(first_issued) },
                EventView::Notification { item: NotificationView::Backend(then_issued) },
                EventView::InitCompleted { outcome: Ok(first_done) },
                EventView::InitCompleted { outcome: Ok(last_done) },
            ];
            run_model(s, events).session == Some(session_of(last_done))
        }),
{
    let e0 = EventView::Notification { item: NotificationView::Backend(first_issued) };
    let e1 = EventView::Notification { item: NotificationView::Backend(then_issued) };
    let e2 = EventView::InitCompleted { outcome: Ok(first_done) };
    let e3 = EventView::InitCompleted { outcome: Ok(last_done) };
    let events = seq![e0, e1, e2, e3];
    let s1 = step_model(s, e0).0;
    let s2 = step_model(s1, e1).0;
    let s3 = step_model(s2, e2).0;
    let s4 = step_model(s3, e3).0;
    assert(events.first() == e0);
    assert(events.drop_first() =~= seq![e1, e2, e3]);
    assert(seq![e1, e2, e3].drop_first() =~= seq![e2, e3]);
    assert(seq![e2, e3].drop_first() =~= seq![e3]);
    assert(seq![e3].drop_first() =~= Seq::<EventView>::empty());
    assert(run_model(s, events) == run_model(s1, seq![e1, e2, e3]));
    assert(run_model(s1, seq![e1, e2, e3]) == run_model(s2, seq![e2, e3]));
    assert(run_model(s2, seq![e2, e3]) == run_model(s3, seq![e3]));
    assert(seq![e3].first() == e3);
    assert(run_model(s4, Seq::<EventView>::empty()) == s4);
    assert(run_model(s3, seq![e3]) == s4);
    assert(s4.session == Some(session_of(last_done)));
}

/// How many times a run of events moves the view from the welcome
/// screen to the project screen.
pub open spec fn switch_count(s: PresenterView, events: Seq<EventView>) -> nat
    decreases events.len(),
{
    if events.len() == 0 {
        0
    } else {
        let s1 = step_model(s, events.first()).0;
        (if s.screen == ViewState::WelcomeScreen && s1.screen == ViewState::ProjectOpened {
            1nat
        } else {
            0nat
        }) + switch_count(s1, events.drop_first())
    }
}

/// Law: once the project screen is attached, any further run of events
/// keeps it attached and performs no further switch.
pub proof fn lemma_opened_stays_over_run(s: PresenterView, events: Seq<EventView>)
    requires
        s.screen == ViewState::ProjectOpened,
    ensures
        run_model(s, events).screen == ViewState::ProjectOpened,
        switch_count(s, events) == 0,
    decreases events.len(),
{
    if events.len() > 0 {
        lemma_no_step_leaves_project_screen(s, events.first());
        lemma_opened_stays_over_run(step_model(s, events.first()).0, events.drop_first());
    }
}

/// Law: over any run of events, the view switches from the welcome
/// screen to the project screen at most once, and exactly once when the
/// run starts on the welcome screen and ends on the project screen.
pub proof fn lemma_switch_at_most_once(s: PresenterView, events: Seq<EventView>)
    ensures
        switch_count(s, events) <= 1,
        switch_count(s, events) == 1 <==> (s.screen == ViewState::WelcomeScreen && run_model(
            s,
            events,
        ).screen == ViewState::ProjectOpened),
    decreases events.len(),
{
    if events.len() > 0 {
        let s1 = step_model(s, events.first()).0;
        if s1.screen == ViewState::ProjectOpened {
            lemma_opened_stays_over_run(s1, events.drop_first());
        } else {
            lemma_switch_at_most_once(s1, events.drop_first());
        }
    }
}

/// Law: over any event sequence, the project screen is attached at the
/// end exactly when it was attached at the start or some delivered event
/// was a switch trigger. The switch happens at the first trigger, stays
/// in force for the rest of the run, and never reverts to the welcome
/// screen.
pub proof fn lemma_switch_exactly_once(s: PresenterView, events: Seq<EventView>)
    ensures
        run_model(s, events).screen == ViewState::ProjectOpened <==> (s.screen
            == ViewState::ProjectOpened || exists|i: int|
            0 <= i < events.len() && is_switch_trigger(#[trigger] events[i])),
    decreases events.len(),
{
    if events.len() > 0 {
        let s1 = step_model(s, events.first()).0;
        lemma_no_step_leaves_project_screen(s, events.first());
        lemma_switch_exactly_once(s1, events.drop_first());
        if run_model(s, events).screen == ViewState::ProjectOpened {
            if s1.screen != ViewState::ProjectOpened {
                let i = choose|i: int|
                    0 <= i < events.drop_first().len() && is_switch_trigger(
                        #[trigger] events.drop_first()[i],
                    );
                assert(events[i + 1] == events.drop_first()[i]);
            } else {
                if s.screen != ViewState::ProjectOpened {
                    assert(is_switch_trigger(events[0]));
                }
            }
        }
        if s.screen == ViewState::ProjectOpened {
            assert(s1.screen == ViewState::ProjectOpened);
        }
        if exists|i: int| 0 <= i < events.len() && is_switch_trigger(#[trigger] events[i]) {
            let i = choose|i: int|
                0 <= i < events.len() && is_switch_trigger(#[trigger] events[i]);
            if i == 0 {
                assert(s1.screen == ViewState::ProjectOpened);
            } else {
                assert(events.drop_first()[i - 1] == events[i]);
            }
        }
    }
}

} // verus!
