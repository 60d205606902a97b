//! The session lifecycle manager.
//!
//! At most one project session is live at a time; it sits in a single
//! slot owned by this manager. Replacing the session follows a strict
//! protocol: the slot is cleared synchronously before any asynchronous
//! initialization starts, so a stale initialization can never resurrect
//! a session that was already replaced. Initializations are not
//! cancelled: when two requests race, whichever completes last fills the
//! slot, irrespective of the order in which they were issued.

use vstd::prelude::*;
use crate::errors::BackendError;
use crate::errors::init_failure_message;
use crate::errors::init_failure_report;

verus! {

/// The live bundle for one open project: handles into the view and the
/// graph editor, the main module's text and model, and the undo/redo
/// history.
#[derive(Debug)]
pub struct Session {
    /// The project view attached to this session.
    pub view_handle: u64,
    /// The graph-editing handle.
    pub graph: u64,
    /// The main module's text.
    pub main_module_text: String,
    /// The main module's model.
    pub main_module: u64,
    /// The undo/redo history of this session's edits.
    pub history: UndoRedoHistory,
}

/// The mathematical shape of a session.
pub struct SessionView {
    pub view_handle: u64,
    pub graph: u64,
    pub main_module_text: Seq<char>,
    pub main_module: u64,
    pub history: Seq<u64>,
}

impl DeepView for Session {
    type V = SessionView;

    open spec fn deep_view(&self) -> SessionView {
        SessionView {
            view_handle: self.view_handle,
            graph: self.graph,
            main_module_text: self.main_module_text@,
            main_module: self.main_module,
            history: self.history@,
        }
    }
}

/// The undo/redo history of a session, a stack of edit records.
#[derive(Debug)]
pub struct UndoRedoHistory {
    entries: Vec<u64>,
}

impl View for UndoRedoHistory {
    type V = Seq<u64>;

    closed spec fn view(&self) -> Seq<u64> {
        self.entries@
    }
}

impl UndoRedoHistory {
    /// An empty history.
    pub fn new() -> (h: UndoRedoHistory)
        ensures
            h@ == Seq::<u64>::empty(),
    {
        UndoRedoHistory { entries: Vec::new() }
    }

    /// Record one edit on top of the history.
    pub fn record_edit(&mut self, edit: u64)
        ensures
            final(self)@ == old(self)@.push(edit),
    {
        self.entries.push(edit);
    }

    /// Forget every recorded edit.
    pub fn clear_all(&mut self)
        ensures
            final(self)@ == Seq::<u64>::empty(),
    {
        self.entries.clear();
    }

    /// How many edits are recorded.
    pub fn len(&self) -> (n: usize)
        ensures
            n == self@.len(),
    {
        self.entries.len()
    }
}

/// The payload of a successful asynchronous initialization: the handles
/// and models the new session is built from, and the history as
/// initialization left it, possibly holding initialization-time edits.
#[derive(Debug)]
pub struct InitResult {
    pub view_handle: u64,
    pub graph: u64,
    pub main_module_text: String,
    pub main_module: u64,
    pub history: UndoRedoHistory,
}

/// The mathematical shape of an initialization payload.
pub struct InitResultView {
    pub view_handle: u64,
    pub graph: u64,
    pub main_module_text: Seq<char>,
    pub main_module: u64,
    pub history: Seq<u64>,
}

impl DeepView for InitResult {
    type V = InitResultView;

    open spec fn deep_view(&self) -> InitResultView {
        InitResultView {
            view_handle: self.view_handle,
            graph: self.graph,
            main_module_text: self.main_module_text@,
            main_module: self.main_module,
            history: self.history@,
        }
    }
}

/// The session a successful initialization installs: the payload's
/// handles and text, under an emptied undo/redo history.
pub open spec fn session_of(r: InitResultView) -> SessionView {
    SessionView {
        view_handle: r.view_handle,
        graph: r.graph,
        main_module_text: r.main_module_text,
        main_module: r.main_module,
        history: Seq::empty(),
    }
}

/// The slot after the synchronous first step of a session request: clear
/// before any asynchronous work begins.
pub open spec fn slot_after_begin(slot: Option<SessionView>) -> Option<SessionView> {
    None
}

/// The slot after one initialization completes: a success installs its
/// session, a failure leaves the slot as it found it.
pub open spec fn slot_after_completion(
    slot: Option<SessionView>,
    outcome: Result<InitResultView, Seq<char>>,
) -> Option<SessionView> {
    match outcome {
        Ok(r) => Some(session_of(r)),
        Err(_) => slot,
    }
}

impl Session {
    /// Build the session for a successful initialization, resetting the
    /// undo/redo history so that no initialization-time edit can be
    /// undone.
    pub fn from_init(r: InitResult) -> (s: Session)
        ensures
            s.deep_view() == session_of(r.deep_view()),
            s.history@.len() == 0,
    {
        let InitResult { view_handle, graph, main_module_text, main_module, mut history } = r;
        history.clear_all();
        Session { view_handle, graph, main_module_text, main_module, history }
    }
}

/// The owner of the single session slot.
#[derive(Debug)]
pub struct SessionManager {
    current: Option<Session>,
}

impl View for SessionManager {
    type V = Option<SessionView>;

    closed spec fn view(&self) -> Option<SessionView> {
        self.current.deep_view()
    }
}

impl SessionManager {
    /// A manager with no session installed.
    pub fn new() -> (m: SessionManager)
        ensures
            m@ is None,
    {
        SessionManager { current: None }
    }

    /// The installed session, if any.
    pub fn current(&self) -> (c: &Option<Session>)
        ensures
            c.deep_view() == self@,
    {
        &self.current
    }

    /// The synchronous first step of a session request: drop whatever
    /// session is installed, before the asynchronous initialization is
    /// started. This is what keeps a stale initialization from
    /// overwriting a newer session's predecessor.
    pub fn begin_request(&mut self)
        ensures
            final(self)@ == slot_after_begin(old(self)@),
    {
        self.current = None;
    }

    /// React to a completed initialization. A success builds its session,
    /// resets the history and installs it; a failure leaves the slot
    /// untouched and yields the report to publish on the status channel.
    pub fn complete_request(&mut self, outcome: Result<InitResult, BackendError>) -> (report: Option<
        String,
    >)
        ensures
            outcome matches Ok(r) ==> final(self)@ == slot_after_completion(
                old(self)@,
                Ok(r.deep_view()),
            ) && report is None,
            outcome matches Err(e) ==> final(self)@ == old(self)@ && (report matches Some(m)
                && m@ == init_failure_message(e.deep_view())),
    {
        match outcome {
            Ok(r) => {
                self.current = Some(Session::from_init(r));
                None
            },
            Err(e) => Some(init_failure_report(&e)),
        }
    }
}

/// Law: when two session requests overlap, each clearing the slot before
/// its initialization runs, the slot ends up holding exactly the session
/// of whichever successful initialization completed last, irrespective
/// of the order the requests were issued in.
pub proof fn lemma_last_completion_wins(
    slot: Option<SessionView>,
    first_done: InitResultView,
    last_done: InitResultView,
)
    ensures
        slot_after_completion(
            slot_after_completion(
                slot_after_begin(slot_after_begin(slot)),
                Ok(first_done),
            ),
            Ok(last_done),
        ) == Some(session_of(last_done)),
{
}

/// Law: every session built from a successful initialization starts with
/// an empty undo/redo history, whatever edits initialization performed.
pub proof fn lemma_new_session_history_empty(r: InitResultView)
    ensures
        session_of(r).history.len() == 0,
{
}

} // verus!
