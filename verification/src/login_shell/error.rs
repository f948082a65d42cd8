//! Failures of login-shell management.

use vstd::prelude::*;
use vstd::string::*;

verus! {

/// What kind of filesystem failure occurred.
#[derive(Clone, Copy, Debug, PartialEq, Eq, Structural)]
pub enum IoKind {
    PermissionDenied,
    NotFound,
    TimedOut,
    Other,
}

/// Failure at a configuration, privilege, filesystem, or account-tool boundary.
#[derive(Clone, Debug)]
pub enum Error {
    /// The platform does not provide the supported management interface.
    Unsupported,
    /// An argument does not satisfy the management contract.
    Invalid(String),
    /// A mutation requires an explicitly privileged caller.
    Permission,
    /// The destination cannot be executed with the selected account's credentials.
    AccessDenied(String),
    /// Current state differs from the caller's expectation or is still in use.
    Conflict(String),
    /// A filesystem operation failed.
    Io(IoKind, String),
    /// A bounded operating-system account command failed.
    Backend(String),
}

/// What an [`Error`] says.
#[verifier::ext_equal]
pub enum ErrorView {
    Unsupported,
    Invalid(Seq<char>),
    Permission,
    AccessDenied(Seq<char>),
    Conflict(Seq<char>),
    Io(IoKind, Seq<char>),
    Backend(Seq<char>),
}

impl View for Error {
    type V = ErrorView;

    open spec fn view(&self) -> ErrorView {
        match self {
            Error::Unsupported => ErrorView::Unsupported,
            Error::Invalid(m) => ErrorView::Invalid(m@),
            Error::Permission => ErrorView::Permission,
            Error::AccessDenied(m) => ErrorView::AccessDenied(m@),
            Error::Conflict(m) => ErrorView::Conflict(m@),
            Error::Io(kind, m) => ErrorView::Io(*kind, m@),
            Error::Backend(m) => ErrorView::Backend(m@),
        }
    }
}

impl ErrorView {
    /// The message of each failure.
    pub open spec fn message(self) -> Seq<char> {
        match self {
            ErrorView::Unsupported => "login-shell management is supported on Linux only"@,
            ErrorView::Invalid(m) => "invalid login-shell request: "@ + m,
            ErrorView::Permission => {
                "login-shell mutations require root; status and --dry-run are unprivileged"@
            },
            ErrorView::AccessDenied(m) => "login-shell target is not accessible to the account: "@ + m,
            ErrorView::Conflict(m) => "login-shell state conflict: "@ + m,
            ErrorView::Io(_, m) => "login-shell filesystem operation failed: "@ + m,
            ErrorView::Backend(m) => "login-shell account operation failed: "@ + m,
        }
    }
}

impl Error {
    /// The message shown to the user.
    pub fn message(&self) -> (res: String)
        ensures
            res@ == self@.message(),
    {
        match self {
            Error::Unsupported => "login-shell management is supported on Linux only".to_owned(),
            Error::Invalid(m) => "invalid login-shell request: ".to_owned().concat(m.as_str()),
            Error::Permission => {
                "login-shell mutations require root; status and --dry-run are unprivileged".to_owned()
            },
            Error::AccessDenied(m) => {
                "login-shell target is not accessible to the account: ".to_owned().concat(m.as_str())
            },
            Error::Conflict(m) => "login-shell state conflict: ".to_owned().concat(m.as_str()),
            Error::Io(_, m) => "login-shell filesystem operation failed: ".to_owned().concat(m.as_str()),
            Error::Backend(m) => "login-shell account operation failed: ".to_owned().concat(m.as_str()),
        }
    }
}

} // verus!
