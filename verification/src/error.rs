//! The failures that the service reports to its callers.

use vstd::prelude::*;

verus! {

/// The category of a failure, without its message.
#[derive(Clone, Copy, Debug, PartialEq, Eq, Structural)]
pub enum ErrorKind {
    /// The storage layer failed.
    Database,
    /// Bad credentials, or a token that is invalid, expired or revoked.
    Auth,
    /// The input is malformed.
    Validation,
    /// The entity asked for does not exist.
    NotFound,
    /// The caller may not perform the operation.
    Unauthorized,
    /// The input collides with what is already stored.
    Conflict,
    /// A collaborator (hashing, token signing, the clock's range) failed.
    Internal,
}

/// The mathematical value of an [`AppError`]: its kind and the text of its message.
pub struct Failure {
    pub kind: ErrorKind,
    pub message: Seq<char>,
}

/// A failure of one of the service's operations.
#[derive(Debug)]
pub enum AppError {
    Database(String),
    Auth(String),
    Validation(String),
    NotFound(String),
    Unauthorized(String),
    Conflict(String),
    Internal(String),
}

impl View for AppError {
    type V = Failure;

    open spec fn view(&self) -> Failure {
        match self {
            AppError::Database(m) => Failure { kind: ErrorKind::Database, message: m@ },
            AppError::Auth(m) => Failure { kind: ErrorKind::Auth, message: m@ },
            AppError::Validation(m) => Failure { kind: ErrorKind::Validation, message: m@ },
            AppError::NotFound(m) => Failure { kind: ErrorKind::NotFound, message: m@ },
            AppError::Unauthorized(m) => Failure { kind: ErrorKind::Unauthorized, message: m@ },
            AppError::Conflict(m) => Failure { kind: ErrorKind::Conflict, message: m@ },
            AppError::Internal(m) => Failure { kind: ErrorKind::Internal, message: m@ },
        }
    }
}

/// The failure of the given kind with the given message.
pub open spec fn failure(kind: ErrorKind, message: Seq<char>) -> Failure {
    Failure { kind, message }
}

/// The mathematical value of an operation's result: of what it returned, or of its failure.
pub open spec fn outcome<T: View>(r: Result<T, AppError>) -> Result<T::V, Failure> {
    match r {
        Ok(value) => Ok(value@),
        Err(e) => Err(e@),
    }
}

/// The words that introduce a failure of the given kind when it is shown to a person.
pub open spec fn kind_label(kind: ErrorKind) -> Seq<char> {
    match kind {
        ErrorKind::Database => "Database error: "@,
        ErrorKind::Auth => "Authentication error: "@,
        ErrorKind::Validation => "Validation error: "@,
        ErrorKind::NotFound => "Not found: "@,
        ErrorKind::Unauthorized => "Unauthorized: "@,
        ErrorKind::Conflict => "Conflict: "@,
        ErrorKind::Internal => "Internal error: "@,
    }
}

impl Failure {
    /// The failure as one line of text: the label of its kind, then its message.
    pub open spec fn rendered(self) -> Seq<char> {
        kind_label(self.kind) + self.message
    }
}

impl AppError {
    /// The category of this failure.
    pub fn kind(&self) -> (k: ErrorKind)
        ensures
            k == self@.kind,
    {
        match self {
            AppError::Database(_) => ErrorKind::Database,
            AppError::Auth(_) => ErrorKind::Auth,
            AppError::Validation(_) => ErrorKind::Validation,
            AppError::NotFound(_) => ErrorKind::NotFound,
            AppError::Unauthorized(_) => ErrorKind::Unauthorized,
            AppError::Conflict(_) => ErrorKind::Conflict,
            AppError::Internal(_) => ErrorKind::Internal,
        }
    }

    /// The message of this failure, without the label of its kind.
    pub fn message(&self) -> (m: &str)
        ensures
            m@ == self@.message,
    {
        match self {
            AppError::Database(m) => m.as_str(),
            AppError::Auth(m) => m.as_str(),
            AppError::Validation(m) => m.as_str(),
            AppError::NotFound(m) => m.as_str(),
            AppError::Unauthorized(m) => m.as_str(),
            AppError::Conflict(m) => m.as_str(),
            AppError::Internal(m) => m.as_str(),
        }
    }

    /// The failure as one line of text, as it is shown to a person.
    pub fn to_string(&self) -> (s: String)
        ensures
            s@ == self@.rendered(),
    {
        let label = match self {
            AppError::Database(_) => "Database error: ",
            AppError::Auth(_) => "Authentication error: ",
            AppError::Validation(_) => "Validation error: ",
            AppError::NotFound(_) => "Not found: ",
            AppError::Unauthorized(_) => "Unauthorized: ",
            AppError::Conflict(_) => "Conflict: ",
            AppError::Internal(_) => "Internal error: ",
        };
        String::from_str(label).concat(self.message())
    }
}

} // verus!
