//! The status line of the login form: at most one message is visible at a
//! time, either informational (an attempt is under way) or an error the user
//! can recover from.

use vstd::prelude::*;

verus! {

/// Informational states shown while a login attempt is under way.
#[derive(Clone, Copy, PartialEq, Eq, Structural, Debug)]
pub enum InfoStatusMessage {
    /// The credentials are being checked.
    Authenticating,
    /// Credentials accepted; the session is being started.
    LoggingIn,
}

/// Recoverable, user-facing errors. The form stays usable after each of them.
#[derive(Clone, PartialEq, Debug)]
pub enum ErrorStatusMessage {
    /// The authentication collaborator rejected the credentials; the reason is
    /// surfaced verbatim.
    AuthenticationError(String),
    /// No session kind was selected when login was attempted.
    NoGraphicalEnvironment,
    /// The chosen session failed to start.
    FailedGraphicalEnvironment,
}

/// What the status line shows: one informational or one error message.
/// Setting a new one replaces any previous one.
#[derive(Clone, PartialEq, Debug)]
pub enum StatusMessage {
    Info(InfoStatusMessage),
    Error(ErrorStatusMessage),
}

} // verus!
