//! The error taxonomy: a closed set of failure kinds, each classified
//! once as a client fault or an internal fault, and each carrying one
//! free-form detail string. Every fallible step returns one of these
//! immediately; each reaches the operation pipeline exactly once.

use vstd::prelude::*;

verus! {

/// Who is at fault: the caller, whose mistake is safe to describe in the
/// response, or the system itself, whose detail must never leave it.
#[derive(Clone, Copy, Debug, PartialEq, Eq, Structural)]
pub enum ErrorClass {
    Internal,
    Client,
}

/// Every failure an operation can report. Each variant carries the
/// human-readable detail that is logged, and, for client-class kinds
/// only, returned to the caller.
#[derive(Clone, Debug)]
pub enum Error {
    /// The request body failed to parse against the expected shape.
    MalformedRequest(String),
    /// No token was presented where one is required.
    MissingCredential(String),
    /// The token failed verification, or the authorization check failed.
    InvalidOrExpiredCredential(String),
    /// A required field is absent or empty, or a semantic constraint is
    /// violated.
    ValidationFailed(String),
    /// A uniqueness constraint is violated.
    Conflict(String),
    /// The referenced entity does not exist.
    NotFound(String),
    /// A supplied secret does not match the stored value.
    WrongCredentialValue(String),
    /// The storage layer returned an unexpected error.
    PersistenceFailure(String),
    /// Signing or encoding of a token or response failed unexpectedly.
    SerializationFailure(String),
}

impl Error {
    /// The classification of each kind, fixed once for the whole taxonomy.
    pub open spec fn class_spec(self) -> ErrorClass {
        match self {
            Error::PersistenceFailure(_) => ErrorClass::Internal,
            Error::SerializationFailure(_) => ErrorClass::Internal,
            _ => ErrorClass::Client,
        }
    }

    /// The short category name rendered for client-class failures.
    pub open spec fn kind_name_spec(self) -> Seq<char> {
        match self {
            Error::MalformedRequest(_) => "MalformedRequest"@,
            Error::MissingCredential(_) => "MissingCredential"@,
            Error::InvalidOrExpiredCredential(_) => "InvalidOrExpiredCredential"@,
            Error::ValidationFailed(_) => "ValidationFailed"@,
            Error::Conflict(_) => "Conflict"@,
            Error::NotFound(_) => "NotFound"@,
            Error::WrongCredentialValue(_) => "WrongCredentialValue"@,
            Error::PersistenceFailure(_) => "PersistenceFailure"@,
            Error::SerializationFailure(_) => "SerializationFailure"@,
        }
    }

    /// The detail string the failure carries.
    pub open spec fn detail_spec(self) -> Seq<char> {
        match self {
            Error::MalformedRequest(s) => s@,
            Error::MissingCredential(s) => s@,
            Error::InvalidOrExpiredCredential(s) => s@,
            Error::ValidationFailed(s) => s@,
            Error::Conflict(s) => s@,
            Error::NotFound(s) => s@,
            Error::WrongCredentialValue(s) => s@,
            Error::PersistenceFailure(s) => s@,
            Error::SerializationFailure(s) => s@,
        }
    }

    /// Classifies the failure: the one dispatch the pipeline consults.
    pub fn class(&self) -> (c: ErrorClass)
        ensures
            c == self.class_spec(),
    {
        match self {
            Error::PersistenceFailure(_) => ErrorClass::Internal,
            Error::SerializationFailure(_) => ErrorClass::Internal,
            _ => ErrorClass::Client,
        }
    }

    /// The short category name of the failure's kind.
    pub fn kind_name(&self) -> (s: String)
        ensures
            s@ == self.kind_name_spec(),
    {
        match self {
            Error::MalformedRequest(_) => "MalformedRequest".to_owned(),
            Error::MissingCredential(_) => "MissingCredential".to_owned(),
            Error::InvalidOrExpiredCredential(_) => "InvalidOrExpiredCredential".to_owned(),
            Error::ValidationFailed(_) => "ValidationFailed".to_owned(),
            Error::Conflict(_) => "Conflict".to_owned(),
            Error::NotFound(_) => "NotFound".to_owned(),
            Error::WrongCredentialValue(_) => "WrongCredentialValue".to_owned(),
            Error::PersistenceFailure(_) => "PersistenceFailure".to_owned(),
            Error::SerializationFailure(_) => "SerializationFailure".to_owned(),
        }
    }

    /// The detail string, for logging.
    pub fn detail(&self) -> (s: &str)
        ensures
            s@ == self.detail_spec(),
    {
        match self {
            Error::MalformedRequest(s) => s.as_str(),
            Error::MissingCredential(s) => s.as_str(),
            Error::InvalidOrExpiredCredential(s) => s.as_str(),
            Error::ValidationFailed(s) => s.as_str(),
            Error::Conflict(s) => s.as_str(),
            Error::NotFound(s) => s.as_str(),
            Error::WrongCredentialValue(s) => s.as_str(),
            Error::PersistenceFailure(s) => s.as_str(),
            Error::SerializationFailure(s) => s.as_str(),
        }
    }
}

/// The shared required-field step: a request field that must be present
/// but is not becomes the caller's validation failure, described by
/// `what`.
pub fn require_field<T>(field: Option<T>, what: &str) -> (r: Result<T, Error>)
    ensures
        match field {
            Some(v) => r == Ok::<T, Error>(v),
            None => r matches Err(e) && e is ValidationFailed && e.detail_spec() == what@,
        },
{
    match field {
        Some(v) => Ok(v),
        None => Err(Error::ValidationFailed(what.to_owned())),
    }
}

/// The shared lookup step: a row that a request references but the store
/// does not hold becomes the caller's not-found failure, described by
/// `what`.
pub fn require_found<T>(found: Option<T>, what: &str) -> (r: Result<T, Error>)
    ensures
        match found {
            Some(v) => r == Ok::<T, Error>(v),
            None => r matches Err(e) && e is NotFound && e.detail_spec() == what@,
        },
{
    match found {
        Some(v) => Ok(v),
        None => Err(Error::NotFound(what.to_owned())),
    }
}

/// Classification is exhaustive and exclusive: every kind is internal or
/// client, internal exactly for the storage and signing failures.
pub proof fn lemma_classification_exhaustive(e: Error)
    ensures
        (e.class_spec() == ErrorClass::Internal) <==> (e is PersistenceFailure
            || e is SerializationFailure),
        (e.class_spec() == ErrorClass::Client) <==> !(e is PersistenceFailure
            || e is SerializationFailure),
{
}

} // verus!
