//! The command line of login-shell management.

use vstd::prelude::*;

use crate::login_shell::error::{Error, ErrorView, IoKind};
use crate::login_shell::manage::{Operation, Request, RequestView};
use crate::text::opt_view;

verus! {

/// The arguments of the access check.
#[derive(Clone, Debug)]
pub struct AccessProbeArgs {
    pub user: String,
    pub uid: u32,
    pub gid: u32,
    pub shell: String,
}

/// The arguments of login-shell management.
#[derive(Clone, Debug)]
pub struct LoginShellArgs {
    /// Absolute public entry; the default is beside the tool.
    pub shell: Option<String>,
    pub action: LoginShellCommand,
}

/// The arguments of a change to one account.
#[derive(Clone, Debug)]
pub struct AccountArgs {
    pub user: String,
    pub expect_shell: String,
    pub dry_run: bool,
}

/// What is asked for.
#[derive(Clone, Debug)]
pub enum LoginShellCommand {
    /// Report state, of this account if one is named.
    Status(Option<String>),
    /// Register the entry; says whether to only preview it.
    Register(bool),
    /// Remove the entry; says whether to only preview it, and whether to keep
    /// it while an executable remains.
    Unregister(bool, bool),
    /// Select the entry for an account.
    Select(AccountArgs),
    /// Select a replacement shell for an account.
    Restore(AccountArgs, String),
}

/// The request behind the arguments, for the entry `shell`.
pub open spec fn request_view(action: LoginShellCommand, shell: Seq<char>) -> RequestView {
    let plain = RequestView {
        operation: Operation::Status,
        shell,
        user: None,
        expect_shell: None,
        restore_shell: None,
        dry_run: false,
        if_missing: false,
    };
    match action {
        LoginShellCommand::Status(user) => RequestView { user: opt_view(user), ..plain },
        LoginShellCommand::Register(dry_run) => RequestView {
            operation: Operation::Register,
            dry_run,
            ..plain
        },
        LoginShellCommand::Unregister(dry_run, if_missing) => RequestView {
            operation: Operation::Unregister,
            dry_run,
            if_missing,
            ..plain
        },
        LoginShellCommand::Select(account) => RequestView {
            operation: Operation::Select,
            user: Some(account.user@),
            expect_shell: Some(account.expect_shell@),
            dry_run: account.dry_run,
            ..plain
        },
        LoginShellCommand::Restore(account, to) => RequestView {
            operation: Operation::Restore,
            user: Some(account.user@),
            expect_shell: Some(account.expect_shell@),
            restore_shell: Some(to@),
            dry_run: account.dry_run,
            ..plain
        },
    }
}

/// The request behind the arguments, for the entry `shell`.
pub fn request_for(action: LoginShellCommand, shell: String) -> (res: Request)
    ensures
        res@ == request_view(action, shell@),
{
    let mut request = Request {
        operation: Operation::Status,
        shell,
        user: None,
        expect_shell: None,
        restore_shell: None,
        dry_run: false,
        if_missing: false,
    };
    match action {
        LoginShellCommand::Status(user) => {
            request.user = user;
        },
        LoginShellCommand::Register(dry_run) => {
            request.operation = Operation::Register;
            request.dry_run = dry_run;
        },
        LoginShellCommand::Unregister(dry_run, if_missing) => {
            request.operation = Operation::Unregister;
            request.dry_run = dry_run;
            request.if_missing = if_missing;
        },
        LoginShellCommand::Select(account) => {
            request.operation = Operation::Select;
            request.user = Some(account.user);
            request.expect_shell = Some(account.expect_shell);
            request.dry_run = account.dry_run;
        },
        LoginShellCommand::Restore(account, to) => {
            request.operation = Operation::Restore;
            request.user = Some(account.user);
            request.expect_shell = Some(account.expect_shell);
            request.restore_shell = Some(to);
            request.dry_run = account.dry_run;
        },
    }
    request
}

/// Machine-readable categories of failures.
#[derive(Clone, Copy, Debug, PartialEq, Eq, Structural)]
pub enum ErrorCode {
    PermissionDenied,
    LoginShellAccessDenied,
    InvalidInput,
    UnsupportedPlatform,
    LoginShellConflict,
    LoginShellBackendError,
    NotFound,
    Timeout,
    LoginShellIoError,
}

impl ErrorCode {
    /// The code as it is printed.
    pub open spec fn label(self) -> Seq<char> {
        match self {
            ErrorCode::PermissionDenied => "PermissionDenied"@,
            ErrorCode::LoginShellAccessDenied => "LoginShellAccessDenied"@,
            ErrorCode::InvalidInput => "InvalidInput"@,
            ErrorCode::UnsupportedPlatform => "UnsupportedPlatform"@,
            ErrorCode::LoginShellConflict => "LoginShellConflict"@,
            ErrorCode::LoginShellBackendError => "LoginShellBackendError"@,
            ErrorCode::NotFound => "NotFound"@,
            ErrorCode::Timeout => "Timeout"@,
            ErrorCode::LoginShellIoError => "LoginShellIoError"@,
        }
    }

    /// The code as it is printed.
    pub fn name(self) -> (res: &'static str)
        ensures
            res@ == self.label(),
    {
        match self {
            ErrorCode::PermissionDenied => "PermissionDenied",
            ErrorCode::LoginShellAccessDenied => "LoginShellAccessDenied",
            ErrorCode::InvalidInput => "InvalidInput",
            ErrorCode::UnsupportedPlatform => "UnsupportedPlatform",
            ErrorCode::LoginShellConflict => "LoginShellConflict",
            ErrorCode::LoginShellBackendError => "LoginShellBackendError",
            ErrorCode::NotFound => "NotFound",
            ErrorCode::Timeout => "Timeout",
            ErrorCode::LoginShellIoError => "LoginShellIoError",
        }
    }
}

/// The category of each failure.
pub open spec fn code_of(error: ErrorView) -> ErrorCode {
    match error {
        ErrorView::Permission => ErrorCode::PermissionDenied,
        ErrorView::AccessDenied(_) => ErrorCode::LoginShellAccessDenied,
        ErrorView::Invalid(_) => ErrorCode::InvalidInput,
        ErrorView::Unsupported => ErrorCode::UnsupportedPlatform,
        ErrorView::Conflict(_) => ErrorCode::LoginShellConflict,
        ErrorView::Backend(_) => ErrorCode::LoginShellBackendError,
        ErrorView::Io(kind, _) => match kind {
            IoKind::PermissionDenied => ErrorCode::PermissionDenied,
            IoKind::NotFound => ErrorCode::NotFound,
            IoKind::TimedOut => ErrorCode::Timeout,
            IoKind::Other => ErrorCode::LoginShellIoError,
        },
    }
}

/// A failure as the command line prints it.
#[derive(Clone, Debug)]
pub struct CliError {
    pub code: ErrorCode,
    pub message: String,
    pub recoverable: bool,
}

/// A failure as the command line prints it.
pub fn cli_error(error: &Error) -> (res: CliError)
    ensures
        res.code == code_of(error@),
        res.message@ == error@.message(),
        !res.recoverable,
{
    let code: ErrorCode = match error {
        Error::Permission => ErrorCode::PermissionDenied,
        Error::AccessDenied(_) => ErrorCode::LoginShellAccessDenied,
        Error::Invalid(_) => ErrorCode::InvalidInput,
        Error::Unsupported => ErrorCode::UnsupportedPlatform,
        Error::Conflict(_) => ErrorCode::LoginShellConflict,
        Error::Backend(_) => ErrorCode::LoginShellBackendError,
        Error::Io(kind, _) => match kind {
            IoKind::PermissionDenied => ErrorCode::PermissionDenied,
            IoKind::NotFound => ErrorCode::NotFound,
            IoKind::TimedOut => ErrorCode::Timeout,
            IoKind::Other => ErrorCode::LoginShellIoError,
        },
    };
    CliError { code, message: error.message(), recoverable: false }
}

} // verus!
