//! The failures that an operation can answer with.

use vstd::prelude::*;

verus! {

/// Why an operation failed.
#[derive(Debug, Clone, Copy, PartialEq, Eq, Structural)]
pub enum ErrorKind {
    /// A required field was missing or blank.
    InvalidInput,
    /// An identity with this email exists already.
    Conflict,
    /// No identity has this email.
    NotFound,
    /// The email and authentication key do not match an identity.
    AuthenticationFailed,
    /// The storage could not be reached, or failed unexpectedly.
    StorageUnavailable,
}

impl ErrorKind {
    /// The HTTP status that goes with each kind.
    pub open spec fn status_of(self) -> u16 {
        match self {
            ErrorKind::InvalidInput => 400,
            ErrorKind::Conflict => 409,
            ErrorKind::NotFound => 404,
            ErrorKind::AuthenticationFailed => 401,
            ErrorKind::StorageUnavailable => 500,
        }
    }

    /// The stable code that goes with each kind.
    pub open spec fn code_of(self) -> Seq<char> {
        match self {
            ErrorKind::InvalidInput => "INVALID_INPUT"@,
            ErrorKind::Conflict => "CONFLICT"@,
            ErrorKind::NotFound => "USER_NOT_FOUND"@,
            ErrorKind::AuthenticationFailed => "AUTH_FAILED"@,
            ErrorKind::StorageUnavailable => "DB_ERROR"@,
        }
    }

    /// The HTTP status of this kind.
    pub fn status(&self) -> (status: u16)
        ensures
            status == self.status_of(),
    {
        match self {
            ErrorKind::InvalidInput => 400,
            ErrorKind::Conflict => 409,
            ErrorKind::NotFound => 404,
            ErrorKind::AuthenticationFailed => 401,
            ErrorKind::StorageUnavailable => 500,
        }
    }

    /// The stable code of this kind.
    pub fn code(&self) -> (code: &'static str)
        ensures
            code@ == self.code_of(),
    {
        match self {
            ErrorKind::InvalidInput => "INVALID_INPUT",
            ErrorKind::Conflict => "CONFLICT",
            ErrorKind::NotFound => "USER_NOT_FOUND",
            ErrorKind::AuthenticationFailed => "AUTH_FAILED",
            ErrorKind::StorageUnavailable => "DB_ERROR",
        }
    }
}

/// A failed response: the HTTP status and the two fields of its body.
#[derive(Debug, PartialEq, Eq)]
pub struct ErrorResponse {
    pub status: u16,
    pub error_msg: String,
    pub code: &'static str,
}

/// What an [`ErrorResponse`] holds, as mathematical values.
pub struct ErrorView {
    pub status: u16,
    pub error_msg: Seq<char>,
    pub code: Seq<char>,
}

impl View for ErrorResponse {
    type V = ErrorView;

    open spec fn view(&self) -> ErrorView {
        ErrorView { status: self.status, error_msg: self.error_msg@, code: self.code@ }
    }
}

/// The failure of the given kind with the given message.
pub open spec fn failure(kind: ErrorKind, error_msg: Seq<char>) -> ErrorView {
    ErrorView { status: kind.status_of(), error_msg, code: kind.code_of() }
}

/// Builds a failed response from its three parts.
pub fn error_response(status: u16, error_msg: &str, code: &'static str) -> (response: ErrorResponse)
    ensures
        response@ == (ErrorView { status, error_msg: error_msg@, code: code@ }),
{
    ErrorResponse { status, error_msg: error_msg.to_owned(), code }
}

/// Builds the failed response of the given kind.
pub fn fail(kind: ErrorKind, error_msg: &str) -> (response: ErrorResponse)
    ensures
        response@ == failure(kind, error_msg@),
{
    error_response(kind.status(), error_msg, kind.code())
}

/// Why the storage did not hand back a record.
#[derive(Debug, Clone, Copy, PartialEq, Eq, Structural)]
pub enum StoreError {
    /// No record matches.
    NotFound,
    /// A record with this email exists already.
    Conflict,
    /// No connection to the storage could be had.
    Unavailable,
    /// The storage failed the statement for another reason. A store in
    /// memory never does; one behind a network may.
    Failed,
}

/// The failure that answers a creation which the storage did not carry out.
pub open spec fn creation_failure(error: StoreError) -> ErrorView {
    match error {
        StoreError::Conflict => failure(ErrorKind::Conflict, "email already registered"@),
        StoreError::Unavailable => failure(ErrorKind::StorageUnavailable, "database unavailable"@),
        _ => failure(ErrorKind::StorageUnavailable, "failed to create user"@),
    }
}

/// The failure that answers a lookup which handed back no record, where a
/// missing record is reported as `missing`.
pub open spec fn lookup_failure(error: StoreError, missing: ErrorView) -> ErrorView {
    match error {
        StoreError::NotFound => missing,
        StoreError::Unavailable => failure(ErrorKind::StorageUnavailable, "database unavailable"@),
        _ => failure(ErrorKind::StorageUnavailable, "failed to fetch user"@),
    }
}

/// Maps what the storage said of a failed creation to the response.
pub fn creation_error(error: StoreError) -> (response: ErrorResponse)
    ensures
        response@ == creation_failure(error),
{
    match error {
        StoreError::Conflict => fail(ErrorKind::Conflict, "email already registered"),
        StoreError::Unavailable => fail(ErrorKind::StorageUnavailable, "database unavailable"),
        _ => fail(ErrorKind::StorageUnavailable, "failed to create user"),
    }
}

/// Maps what the storage said of a failed lookup to the response; a
/// missing record is answered with `missing`.
pub fn lookup_error(error: StoreError, missing: ErrorResponse) -> (response: ErrorResponse)
    ensures
        response@ == lookup_failure(error, missing@),
{
    match error {
        StoreError::NotFound => missing,
        StoreError::Unavailable => fail(ErrorKind::StorageUnavailable, "database unavailable"),
        _ => fail(ErrorKind::StorageUnavailable, "failed to fetch user"),
    }
}

/// The view of a reply: of the body where it succeeded, of the failure
/// where it did not.
pub open spec fn reply<T: View>(r: Result<T, ErrorResponse>) -> Result<T::V, ErrorView> {
    match r {
        Ok(body) => Ok(body@),
        Err(e) => Err(e@),
    }
}

} // verus!
