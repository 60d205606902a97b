//! A verified presenter layer for a project-editing application.
//!
//! The presenter reconciles an asynchronous backend's notification stream
//! with a single, consistently displayed interactive session in the view.
//! Its state is made of three pieces: the session slot (at most one live
//! session), the process registry (backend task handles mapped to the
//! view's progress indicators), and the top-level screen switch.
//!
//! All decisions are made here, synchronously and fully verified; the
//! surrounding application performs the asynchronous backend calls and the
//! view mutations that the decision functions request.

pub mod commands;
pub mod errors;
pub mod notifications;
pub mod presenter;
pub mod registry;
pub mod session;
pub mod view_state;
