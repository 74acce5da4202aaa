//! The database service: how the outcomes of its database calls are answered.
//!
//! Internal failures are answered with a generic status, and their cause is kept aside for
//! the server logs.

use crate::storage::{Code, DatabaseFailure, Status};
use crate::text::{join, owned};
use vstd::prelude::*;

verus! {

/// Errors of the database service's connection pool.
#[derive(Debug, Clone, PartialEq, Eq)]
pub enum Error {
    /// The connection pool could not be created; carries the cause.
    FailedToCreateConnectionPool(String),
    /// No connection could be taken from the pool; carries the cause.
    FailedToGetConnectionFromThePool(String),
}

/// The text of an [`Error`].
pub open spec fn error_text(error: Error) -> Seq<char> {
    match error {
        Error::FailedToCreateConnectionPool(cause) => "Failed to create connection pool: "@ + cause@,
        Error::FailedToGetConnectionFromThePool(cause) => "Failed to get connection from the pool: "@
            + cause@,
    }
}

impl Error {
    /// The error's text.
    pub fn message(&self) -> (text: String)
        ensures
            text@ == error_text(*self),
    {
        match self {
            Error::FailedToCreateConnectionPool(cause) => join(
                owned("Failed to create connection pool: "),
                cause.as_str(),
            ),
            Error::FailedToGetConnectionFromThePool(cause) => join(
                owned("Failed to get connection from the pool: "),
                cause.as_str(),
            ),
        }
    }
}

/// A failed request: the status for the client and, for internal failures, the cause.
#[derive(Debug, Clone, PartialEq, Eq)]
pub struct ProcessingError {
    /// Status returned to the client.
    pub status: Status,
    /// Additional information about the error, for the logs.
    pub additional_info: Option<String>,
}

/// The message of every internal status.
pub open spec fn internal_message() -> Seq<char> {
    "Internal error, please try again later"@
}

/// The message of a missing resource.
pub open spec fn not_found_message() -> Seq<char> {
    "Resource not found"@
}

/// The message of a duplicate resource.
pub open spec fn already_exists_message() -> Seq<char> {
    "Password for this resource already exists"@
}

/// `error` is an internal failure whose cause is `info`.
pub open spec fn is_internal(error: ProcessingError, info: Seq<char>) -> bool {
    &&& error.status.code == Code::Internal
    &&& error.status.message@ == internal_message()
    &&& error.additional_info matches Some(i) && i@ == info
}

impl ProcessingError {
    /// An internal failure with the given cause.
    pub fn internal(additional_info: String) -> (error: ProcessingError)
        ensures
            is_internal(error, additional_info@),
    {
        ProcessingError {
            status: Status { code: Code::Internal, message: owned("Internal error, please try again later") },
            additional_info: Some(additional_info),
        }
    }

    /// The failure of a pool error: internal, with the error's text as the cause.
    pub fn from_error(error: Error) -> (processing: ProcessingError)
        ensures
            is_internal(processing, error_text(error)),
    {
        ProcessingError::internal(error.message())
    }

    /// The failure answered with `status`: an internal status keeps its message as the cause
    /// and is answered generically; any other status is answered as it is.
    pub fn from_status(status: Status) -> (error: ProcessingError)
        ensures
            status.code == Code::Internal ==> is_internal(error, status.message@),
            status.code != Code::Internal ==> error == (ProcessingError { status, additional_info: None }),
    {
        if status.code == Code::Internal {
            ProcessingError::internal(status.message)
        } else {
            ProcessingError { status, additional_info: None }
        }
    }
}

/// The answer to a failed insertion described by `description`: a duplicate resource is
/// reported to the client, any other failure is internal with the description as its cause.
pub fn insertion_failure(failure: DatabaseFailure, description: String) -> (error: ProcessingError)
    ensures
        failure == DatabaseFailure::UniqueViolation ==> error.status.code == Code::AlreadyExists
            && error.status.message@ == already_exists_message() && error.additional_info is None,
        failure != DatabaseFailure::UniqueViolation ==> is_internal(error, description@),
{
    match failure {
        DatabaseFailure::UniqueViolation => ProcessingError::from_status(
            Status { code: Code::AlreadyExists, message: owned("Password for this resource already exists") },
        ),
        _ => ProcessingError::internal(description),
    }
}

/// The answer to a failed query for one resource described by `description`: a missing
/// resource is reported to the client, any other failure is internal with the description
/// as its cause.
pub fn query_failure(failure: DatabaseFailure, description: String) -> (error: ProcessingError)
    ensures
        failure == DatabaseFailure::NotFound ==> error.status.code == Code::NotFound
            && error.status.message@ == not_found_message() && error.additional_info is None,
        failure != DatabaseFailure::NotFound ==> is_internal(error, description@),
{
    match failure {
        DatabaseFailure::NotFound => ProcessingError::from_status(
            Status { code: Code::NotFound, message: owned("Resource not found") },
        ),
        _ => ProcessingError::internal(description),
    }
}

/// The outcome of a deletion that removed `affected_rows` rows: none means the resource was
/// not found, one is success, more is an internal failure.
pub fn deletion_outcome(affected_rows: usize) -> (outcome: Result<(), ProcessingError>)
    ensures
        affected_rows == 0 ==> (outcome matches Err(e) && e.status.code == Code::NotFound
            && e.status.message@ == not_found_message() && e.additional_info is None),
        affected_rows == 1 ==> outcome is Ok,
        affected_rows > 1 ==> (outcome matches Err(e) && is_internal(e, "More than one row affected"@)),
{
    if affected_rows == 0 {
        Err(ProcessingError::from_status(Status { code: Code::NotFound, message: owned("Resource not found") }))
    } else if affected_rows == 1 {
        Ok(())
    } else {
        Err(ProcessingError::internal(owned("More than one row affected")))
    }
}

} // verus!
