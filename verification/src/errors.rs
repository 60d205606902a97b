//! Failure values and the user-visible messages made from them.
//!
//! Every failure in the presenter is terminal to the operation that
//! produced it and is reported as a status event; none of them is allowed
//! to take the presenter down. Each failing step gets a message of its
//! own, so a report can be attributed to the step that produced it.

use vstd::prelude::*;
use vstd::string::StringExecFns;

verus! {

/// An error handed back by a backend call, already rendered as text.
#[derive(Debug)]
pub struct BackendError {
    /// The backend's description of what went wrong.
    pub message: String,
}

impl DeepView for BackendError {
    type V = Seq<char>;

    open spec fn deep_view(&self) -> Seq<char> {
        self.message@
    }
}

/// The report for a session initialization that failed.
pub open spec fn init_failure_message(err: Seq<char>) -> Seq<char> {
    "Failed to initialize project: "@ + err
}

/// The report for an open request whose project name matched nothing.
pub open spec fn project_not_found_message(name: Seq<char>) -> Seq<char> {
    "Could not find project with name "@ + name
}

/// The report for an open call that the backend refused.
pub open spec fn open_failure_message(name: Seq<char>, err: Seq<char>) -> Seq<char> {
    "Could not open project "@ + name + ": "@ + err
}

/// The report for a listing call, made on behalf of an open request, that
/// failed.
pub open spec fn listing_failure_message(err: Seq<char>) -> Seq<char> {
    "Could not list projects: "@ + err
}

/// The report for a create call that the backend refused.
pub open spec fn create_failure_message(err: Seq<char>) -> Seq<char> {
    "Could not create new project: "@ + err
}

/// The report for a listing call, made to fill the welcome screen, that
/// failed.
pub open spec fn welcome_listing_failure_message(err: Seq<char>) -> Seq<char> {
    "Unable to get list of projects: "@ + err
}

/// Render the report for a failed session initialization.
pub fn init_failure_report(err: &BackendError) -> (m: String)
    ensures
        m@ == init_failure_message(err.deep_view()),
{
    let mut m = String::from_str("Failed to initialize project: ");
    m.append(err.message.as_str());
    m
}

/// Render the report for a project name that matched nothing.
pub fn project_not_found_report(name: &str) -> (m: String)
    ensures
        m@ == project_not_found_message(name@),
{
    let mut m = String::from_str("Could not find project with name ");
    m.append(name);
    m
}

/// Render the report for an open call that the backend refused.
pub fn open_failure_report(name: &str, err: &BackendError) -> (m: String)
    ensures
        m@ == open_failure_message(name@, err.deep_view()),
{
    let mut m = String::from_str("Could not open project ");
    m.append(name);
    m.append(": ");
    m.append(err.message.as_str());
    m
}

/// Render the report for a failed listing call behind an open request.
pub fn listing_failure_report(err: &BackendError) -> (m: String)
    ensures
        m@ == listing_failure_message(err.deep_view()),
{
    let mut m = String::from_str("Could not list projects: ");
    m.append(err.message.as_str());
    m
}

/// Render the report for a create call that the backend refused.
pub fn create_failure_report(err: &BackendError) -> (m: String)
    ensures
        m@ == create_failure_message(err.deep_view()),
{
    let mut m = String::from_str("Could not create new project: ");
    m.append(err.message.as_str());
    m
}

/// Render the report for a failed listing call behind the welcome screen.
pub fn welcome_listing_failure_report(err: &BackendError) -> (m: String)
    ensures
        m@ == welcome_listing_failure_message(err.deep_view()),
{
    let mut m = String::from_str("Unable to get list of projects: ");
    m.append(err.message.as_str());
    m
}

} // verus!
