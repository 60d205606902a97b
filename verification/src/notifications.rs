//! The notification kinds delivered on the backend's unified stream.
//!
//! The presenter subscribes once to a single stream that fans in every
//! notification the backend emits. Status notifications drive the status
//! bar and the process registry; backend notifications announce that a
//! project became current and trigger the re-creation of the session.

use vstd::prelude::*;

verus! {

/// A user-visible notification on the status channel.
#[derive(Debug)]
pub enum StatusNotification {
    /// A one-off event to show in the status bar.
    Event { label: String },
    /// A long-running backend task began; a progress indicator should
    /// appear until the matching finish arrives.
    BackgroundTaskStarted { label: String, handle: u64 },
    /// The backend task identified by `handle` completed.
    BackgroundTaskFinished { handle: u64 },
}

/// The mathematical shape of a status notification: labels as character
/// sequences.
pub enum StatusNotificationView {
    Event { label: Seq<char> },
    BackgroundTaskStarted { label: Seq<char>, handle: u64 },
    BackgroundTaskFinished { handle: u64 },
}

impl DeepView for StatusNotification {
    type V = StatusNotificationView;

    open spec fn deep_view(&self) -> StatusNotificationView {
        match self {
            StatusNotification::Event { label } => StatusNotificationView::Event {
                label: label@,
            },
            StatusNotification::BackgroundTaskStarted { label, handle } => {
                StatusNotificationView::BackgroundTaskStarted { label: label@, handle: *handle }
            },
            StatusNotification::BackgroundTaskFinished { handle } => {
                StatusNotificationView::BackgroundTaskFinished { handle: *handle }
            },
        }
    }
}

/// A notification that a project became current at the backend. Both
/// variants trigger the same reaction: the session is rebuilt.
#[derive(Clone, Copy, Debug, PartialEq, Eq, Structural)]
pub enum BackendNotification {
    /// A fresh project was created and is now current.
    NewProjectCreated,
    /// An existing project was opened and is now current.
    ProjectOpened,
}

/// One item of the unified notification stream.
#[derive(Debug)]
pub enum Notification {
    /// A status-channel item.
    Status(StatusNotification),
    /// A project-became-current item.
    Backend(BackendNotification),
}

/// The mathematical shape of a unified stream item.
pub enum NotificationView {
    Status(StatusNotificationView),
    Backend(BackendNotification),
}

impl DeepView for Notification {
    type V = NotificationView;

    open spec fn deep_view(&self) -> NotificationView {
        match self {
            Notification::Status(s) => NotificationView::Status(s.deep_view()),
            Notification::Backend(b) => NotificationView::Backend(*b),
        }
    }
}

} // verus!
