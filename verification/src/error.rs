//! The failure kinds of the service and what each one shows to the outside.

use crate::response::{
    failure, success, Response, ResponseView, STATUS_BAD_REQUEST, STATUS_INTERNAL_SERVER_ERROR,
    STATUS_NOT_FOUND, STATUS_OK,
};
use vstd::prelude::*;

verus! {

/// `sqlx::Error`: the diagnostic of a store failure. It is carried, never read.
#[verifier::external_type_specification]
#[verifier::external_body]
pub struct ExStoreError(sqlx::Error);

/// Why a request was not served.
#[derive(Debug)]
pub enum AppError {
    /// The store refused the write or could not be reached.
    DatabaseError(sqlx::Error),
    /// The submission was malformed or incomplete.
    ValidationError(String),
    /// What was asked for does not exist.
    NotFound(String),
}

/// How loudly a failure is logged.
#[derive(Clone, Copy, Debug, PartialEq, Eq, Structural)]
pub enum Severity {
    Error,
    Warning,
}

/// All that a caller is ever told about a store failure.
pub open spec fn internal_error_message() -> Seq<char> {
    "Internal server error"@
}

impl AppError {
    /// The status code that answers this failure.
    pub open spec fn status(self) -> u16 {
        match self {
            AppError::DatabaseError(_) => STATUS_INTERNAL_SERVER_ERROR,
            AppError::ValidationError(_) => STATUS_BAD_REQUEST,
            AppError::NotFound(_) => STATUS_NOT_FOUND,
        }
    }

    /// The message that the caller is shown. For a store failure it is the
    /// same whatever the diagnostic holds.
    pub open spec fn message(self) -> Seq<char> {
        match self {
            AppError::DatabaseError(_) => internal_error_message(),
            AppError::ValidationError(message) => message@,
            AppError::NotFound(message) => message@,
        }
    }

    /// The severity at which this failure is logged.
    pub open spec fn severity(self) -> Severity {
        match self {
            AppError::DatabaseError(_) => Severity::Error,
            AppError::ValidationError(_) => Severity::Warning,
            AppError::NotFound(_) => Severity::Warning,
        }
    }

    /// The status code that answers this failure.
    pub fn status_code(&self) -> (code: u16)
        ensures
            code == self.status(),
    {
        match self {
            AppError::DatabaseError(_) => STATUS_INTERNAL_SERVER_ERROR,
            AppError::ValidationError(_) => STATUS_BAD_REQUEST,
            AppError::NotFound(_) => STATUS_NOT_FOUND,
        }
    }

    /// The message that the caller is shown.
    pub fn error_message(&self) -> (message: String)
        ensures
            message@ == self.message(),
    {
        match self {
            AppError::DatabaseError(_) => "Internal server error".to_owned(),
            AppError::ValidationError(message) => message.clone(),
            AppError::NotFound(message) => message.clone(),
        }
    }

    /// The severity at which this failure is logged.
    pub fn log_severity(&self) -> (severity: Severity)
        ensures
            severity == self.severity(),
    {
        match self {
            AppError::DatabaseError(_) => Severity::Error,
            AppError::ValidationError(_) => Severity::Warning,
            AppError::NotFound(_) => Severity::Warning,
        }
    }

    /// What is written to the log for this failure: for a store failure the
    /// diagnostic in full, as it displays itself; for the others their
    /// message.
    pub fn log_detail(&self) -> (detail: String)
        ensures
            match self {
                AppError::DatabaseError(err) => vstd::string::to_string_from_display_ensures::<
                    sqlx::Error,
                >(err, detail),
                AppError::ValidationError(message) => detail@ == message@,
                AppError::NotFound(message) => detail@ == message@,
            },
    {
        match self {
            AppError::DatabaseError(err) => err.to_string(),
            AppError::ValidationError(message) => message.clone(),
            AppError::NotFound(message) => message.clone(),
        }
    }

    /// The answer that goes out for this failure: its status, and a JSON
    /// object whose member `error` holds its message.
    pub fn into_response(self) -> (response: Response)
        ensures
            response@ == failure(self.status(), self.message()),
    {
        let status = self.status_code();
        let message = self.error_message();
        Response::error(status, message.as_str())
    }
}

/// The answer that goes out for the outcome of a request: success with an
/// empty body, or what the failure shows to the outside.
pub open spec fn answer(outcome: Result<(), AppError>) -> ResponseView {
    match outcome {
        Ok(_) => success(),
        Err(error) => failure(error.status(), error.message()),
    }
}

/// Turns the outcome of a request into the answer that goes out.
pub fn respond(outcome: Result<(), AppError>) -> (response: Response)
    ensures
        response@ == answer(outcome),
{
    match outcome {
        Ok(_) => Response::ok(),
        Err(error) => error.into_response(),
    }
}

/// Only a request that was served is answered with `200`, and only its
/// answer has an empty body: no failure can pass for success.
pub proof fn lemma_only_success_is_answered_as_success(outcome: Result<(), AppError>)
    ensures
        answer(outcome).status == STATUS_OK <==> outcome is Ok,
        answer(outcome).body is Empty <==> outcome is Ok,
{
}

/// A store failure is answered with `500` and the one generic message,
/// whatever its diagnostic holds: nothing of the diagnostic reaches the
/// caller.
pub proof fn lemma_store_failure_is_opaque(diagnostic: sqlx::Error)
    ensures
        answer(Err(AppError::DatabaseError(diagnostic))) == failure(
            STATUS_INTERNAL_SERVER_ERROR,
            internal_error_message(),
        ),
{
}

impl From<sqlx::Error> for AppError {
    fn from(err: sqlx::Error) -> (error: AppError) {
        AppError::DatabaseError(err)
    }
}

impl vstd::std_specs::convert::FromSpecImpl<sqlx::Error> for AppError {
    open spec fn obeys_from_spec() -> bool {
        true
    }

    open spec fn from_spec(err: sqlx::Error) -> AppError {
        AppError::DatabaseError(err)
    }
}

} // verus!
