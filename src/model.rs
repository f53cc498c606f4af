//! What the service answers and how an operation can end.
use vstd::prelude::*;

verus! {

/// The answer of the lookup and explain endpoints.
#[derive(Debug, PartialEq, Eq)]
pub struct ApiResult {
    /// The command, or the explanation.
    pub result: String,
    /// An advisory note; empty when there is none.
    pub message: String,
}

/// Field-level problems that the service found with a registration.
#[derive(Debug, PartialEq, Eq)]
pub struct RegistrationFieldErrors {
    /// Messages about the email address, in the order given.
    pub email: Option<Vec<String>>,
    /// Messages about the password, in the order given.
    pub password: Option<Vec<String>>,
}

/// The shape a response body is read as.
#[derive(Debug, PartialEq, Eq, Clone, Copy, Structural)]
pub enum PayloadKind {
    /// `RegistrationFieldErrors`.
    FieldErrors,
    /// An object holding the credential under `auth_token`.
    Token,
    /// `ApiResult`.
    Answer,
}

/// A response body read as one of the shapes of `PayloadKind`.
#[derive(Debug, PartialEq, Eq)]
pub enum Payload {
    FieldErrors(RegistrationFieldErrors),
    Token(String),
    Answer(ApiResult),
}

/// How an operation ended well.
#[derive(Debug, PartialEq, Eq)]
pub enum Success {
    /// The account was created; it still has to be confirmed by email.
    Registered,
    /// A credential was issued and stored.
    LoggedIn,
    /// The service answered a lookup or an explanation.
    Answer(ApiResult),
}

/// How an operation failed.
#[derive(Debug, PartialEq, Eq)]
pub enum ApiError {
    /// The request did not complete: connection, DNS, TLS or timeout.
    TransportFailure,
    /// The service refused a registration, with its reasons.
    ValidationFailure(RegistrationFieldErrors),
    /// Wrong email or password at login, or a missing or expired credential.
    AuthFailure,
    /// No requests left in the account's quota.
    QuotaExceeded,
    /// The status meant success or a readable error, but the body did not
    /// have the expected shape.
    UnexpectedResponseShape,
    /// Any other status, kept for diagnostics.
    ServerError(u16),
    /// The credential could not be written or removed.
    StorageError,
}

/// The final result of one operation.
pub type Outcome = Result<Success, ApiError>;

} // verus!
