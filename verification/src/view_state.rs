//! The top-level screen switch.
//!
//! The view shows either the welcome screen (the initial state) or the
//! project screen. The only transition goes from the welcome screen to the
//! project screen; nothing in the presenter ever switches back.

use vstd::prelude::*;

verus! {

/// Which top-level screen is attached to the display.
#[derive(Clone, Copy, Debug, PartialEq, Eq, Structural)]
pub enum ViewState {
    /// The welcome screen, shown until a project becomes current.
    WelcomeScreen,
    /// The project screen, shown for the rest of the presenter's life.
    ProjectOpened,
}

/// The state after a switch request: always the project screen.
pub open spec fn switched(s: ViewState) -> ViewState {
    ViewState::ProjectOpened
}

impl ViewState {
    /// The initial state: the welcome screen is attached.
    pub fn initial() -> (s: ViewState)
        ensures
            s == ViewState::WelcomeScreen,
    {
        ViewState::WelcomeScreen
    }

    /// Detach the welcome screen and attach the project screen.
    ///
    /// Returns whether the state actually changed, so that the caller can
    /// tell the first switch from a repeated one.
    pub fn switch_view(&mut self) -> (changed: bool)
        ensures
            *final(self) == switched(*old(self)),
            changed == (*old(self) == ViewState::WelcomeScreen),
    {
        let was_welcome = matches!(*self, ViewState::WelcomeScreen);
        *self = ViewState::ProjectOpened;
        was_welcome
    }
}

/// Law: a switch always lands on the project screen, and a second switch
/// changes nothing: there is no path back to the welcome screen.
pub proof fn lemma_switch_is_one_way(s: ViewState)
    ensures
        switched(s) == ViewState::ProjectOpened,
        switched(switched(s)) == switched(s),
{
}

} // verus!
