//! How the gateway answers what it cannot do.

use vstd::prelude::*;

verus! {

/// Why the store failed.
#[derive(Clone, Debug)]
pub enum StoreError {
    /// A task was changed in between.
    RevisionConflict { expected: u64, actual: u64 },
}

/// Why a request failed.
#[derive(Clone, Debug)]
pub enum GatewayDaemonError {
    Protocol(String),
    Store(StoreError),
    /// A failure that carries its own answer.
    Contract { code: String, message: String, recoverable: bool },
}

/// What is answered to a request that failed.
#[derive(Clone, Debug)]
pub struct ErrorBody {
    pub code: String,
    pub message: String,
    pub recoverable: bool,
}

/// The answer to a request that failed. `request_id` is the request, if it
/// could be read that far.
#[derive(Clone, Debug)]
pub struct ErrorResponse {
    pub request_id: Option<String>,
    pub error: ErrorBody,
}

/// What is answered to each failure: a failure with its own answer keeps it.
pub open spec fn answer_for(error: GatewayDaemonError) -> (Seq<char>, Seq<char>, bool) {
    match error {
        GatewayDaemonError::Protocol(_) => (
            "invalid_request"@,
            "request violates the Gateway contract"@,
            false,
        ),
        GatewayDaemonError::Store(StoreError::RevisionConflict { .. }) => (
            "task_version_conflict"@,
            "task changed since it was read"@,
            true,
        ),
        GatewayDaemonError::Contract { code, message, recoverable } => (
            code@,
            message@,
            recoverable,
        ),
    }
}

/// The answer to a request that failed.
pub fn error_response(request_id: Option<String>, error: &GatewayDaemonError) -> (res: ErrorResponse)
    ensures
        crate::text::opt_view(res.request_id) == crate::text::opt_view(request_id),
        (res.error.code@, res.error.message@, res.error.recoverable) == answer_for(*error),
{
    let error = match error {
        GatewayDaemonError::Protocol(_) => ErrorBody {
            code: "invalid_request".to_owned(),
            message: "request violates the Gateway contract".to_owned(),
            recoverable: false,
        },
        GatewayDaemonError::Store(StoreError::RevisionConflict { .. }) => ErrorBody {
            code: "task_version_conflict".to_owned(),
            message: "task changed since it was read".to_owned(),
            recoverable: true,
        },
        GatewayDaemonError::Contract { code, message, recoverable } => ErrorBody {
            code: code.clone(),
            message: message.clone(),
            recoverable: *recoverable,
        },
    };
    ErrorResponse { request_id, error }
}

/// A failure with its own answer is answered with that one, a conflict can be tried
/// again, and what is no request cannot.
pub proof fn failures_are_answered_in_kind(
    reason: String,
    expected: u64,
    actual: u64,
    code: String,
    message: String,
    recoverable: bool,
)
    ensures
        answer_for(GatewayDaemonError::Contract { code, message, recoverable }) == (
            code@,
            message@,
            recoverable,
        ),
        answer_for(GatewayDaemonError::Protocol(reason)).0 == "invalid_request"@,
        !answer_for(GatewayDaemonError::Protocol(reason)).2,
        answer_for(
            GatewayDaemonError::Store(StoreError::RevisionConflict { expected, actual }),
        ).0 == "task_version_conflict"@,
        answer_for(
            GatewayDaemonError::Store(StoreError::RevisionConflict { expected, actual }),
        ).2,
{
}

} // verus!
