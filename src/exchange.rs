//! One operation against the service, from the request to its outcome.
//!
//! The caller performs what each `Action` asks (read the body, store the
//! credential) and hands back what happened; the exchange decides the rest.
use vstd::prelude::*;
use crate::model::{ApiError, Outcome, Payload, PayloadKind, Success};
use crate::request::{
    explain_request, is_explain_request, is_login_request, is_lookup_request,
    is_register_request, login_request, lookup_request, register_request, HttpRequest,
};
use crate::session::{saved_text, session_of};

verus! {

/// HTTP status `200 OK`.
pub const STATUS_OK: u16 = 200;

/// HTTP status `201 Created`.
pub const STATUS_CREATED: u16 = 201;

/// HTTP status `400 Bad Request`.
pub const STATUS_BAD_REQUEST: u16 = 400;

/// HTTP status `401 Unauthorized`.
pub const STATUS_UNAUTHORIZED: u16 = 401;

/// HTTP status `429 Too Many Requests`.
pub const STATUS_TOO_MANY_REQUESTS: u16 = 429;

/// The four operations of the service.
#[derive(Debug, PartialEq, Eq, Clone, Copy, Structural)]
pub enum Operation {
    Register,
    Login,
    Lookup,
    Explain,
}

/// Where an exchange stands.
#[derive(Debug, PartialEq, Eq, Clone, Copy, Structural)]
pub enum Phase {
    /// The request is out; the status is awaited.
    Requesting,
    /// The body is being read.
    ReadingBody,
    /// An issued credential is being stored.
    Saving,
    /// The outcome is known.
    Done,
}

/// What the caller has to do next.
#[derive(Debug, PartialEq, Eq)]
pub enum Action {
    /// Read the response body as the given shape and report it with `on_body`.
    ReadBody(PayloadKind),
    /// Store this credential and report with `on_saved` whether that worked.
    SaveToken(String),
    /// Nothing is left to do.
    Finish(Outcome),
}

/// One operation in progress.
#[derive(Debug, PartialEq, Eq)]
pub struct Exchange {
    operation: Operation,
    phase: Phase,
    request: HttpRequest,
}

/// The body shape that a successful (or, for registration, rejected)
/// response of `op` carries.
pub open spec fn payload_kind(op: Operation) -> PayloadKind {
    match op {
        Operation::Register => PayloadKind::FieldErrors,
        Operation::Login => PayloadKind::Token,
        _ => PayloadKind::Answer,
    }
}

/// What a response status means for `op`.
pub open spec fn status_action(op: Operation, status: u16) -> Action {
    match op {
        Operation::Register => if status == STATUS_CREATED {
            Action::Finish(Ok(Success::Registered))
        } else if status == STATUS_BAD_REQUEST {
            Action::ReadBody(PayloadKind::FieldErrors)
        } else {
            Action::Finish(Err(ApiError::ServerError(status)))
        },
        Operation::Login => if status == STATUS_OK {
            Action::ReadBody(PayloadKind::Token)
        } else if status == STATUS_BAD_REQUEST {
            Action::Finish(Err(ApiError::AuthFailure))
        } else {
            Action::Finish(Err(ApiError::ServerError(status)))
        },
        Operation::Lookup | Operation::Explain => if status == STATUS_OK {
            Action::ReadBody(PayloadKind::Answer)
        } else if status == STATUS_UNAUTHORIZED {
            Action::Finish(Err(ApiError::AuthFailure))
        } else if status == STATUS_TOO_MANY_REQUESTS {
            Action::Finish(Err(ApiError::QuotaExceeded))
        } else {
            Action::Finish(Err(ApiError::ServerError(status)))
        },
    }
}

/// What a body read for `op` leads to; `None` is a body that did not have
/// the expected shape.
pub open spec fn body_action(op: Operation, body: Option<Payload>) -> Action {
    match (op, body) {
        (Operation::Register, Some(Payload::FieldErrors(e))) => Action::Finish(
            Err(ApiError::ValidationFailure(e)),
        ),
        (Operation::Login, Some(Payload::Token(t))) => Action::SaveToken(t),
        (Operation::Lookup, Some(Payload::Answer(a))) => Action::Finish(Ok(Success::Answer(a))),
        (Operation::Explain, Some(Payload::Answer(a))) => Action::Finish(Ok(Success::Answer(a))),
        _ => Action::Finish(Err(ApiError::UnexpectedResponseShape)),
    }
}

/// How storing the issued credential ends a login.
pub open spec fn saved_action(stored: bool) -> Action {
    if stored {
        Action::Finish(Ok(Success::LoggedIn))
    } else {
        Action::Finish(Err(ApiError::StorageError))
    }
}

/// The phase that follows an action.
pub open spec fn phase_after(a: Action) -> Phase {
    match a {
        Action::ReadBody(_) => Phase::ReadingBody,
        Action::SaveToken(_) => Phase::Saving,
        Action::Finish(_) => Phase::Done,
    }
}

/// Starts registering an account at `host`.
pub fn register(email: &str, password: &str, host: &str) -> (r: Exchange)
    ensures
        r.spec_operation() == Operation::Register,
        r.spec_phase() == Phase::Requesting,
        is_register_request(r.spec_request(), host@, email@, password@),
{
    Exchange {
        operation: Operation::Register,
        phase: Phase::Requesting,
        request: register_request(host, email, password),
    }
}

/// Starts logging in at `host`.
pub fn login(email: &str, password: &str, host: &str) -> (r: Exchange)
    ensures
        r.spec_operation() == Operation::Login,
        r.spec_phase() == Phase::Requesting,
        is_login_request(r.spec_request(), host@, email@, password@),
{
    Exchange {
        operation: Operation::Login,
        phase: Phase::Requesting,
        request: login_request(host, email, password),
    }
}

/// Starts looking up a command for `description` at `host`.
pub fn get_command(description: &str, host: &str, version: &str, token: Option<&str>) -> (r:
    Exchange)
    ensures
        r.spec_operation() == Operation::Lookup,
        r.spec_phase() == Phase::Requesting,
        is_lookup_request(r.spec_request(), host@, description@, version@, token),
{
    Exchange {
        operation: Operation::Lookup,
        phase: Phase::Requesting,
        request: lookup_request(host, description, version, token),
    }
}

/// Starts asking `host` to explain the shell command `command`.
pub fn explain_command(command: &str, host: &str, version: &str, token: Option<&str>) -> (r:
    Exchange)
    ensures
        r.spec_operation() == Operation::Explain,
        r.spec_phase() == Phase::Requesting,
        is_explain_request(r.spec_request(), host@, command@, version@, token),
{
    Exchange {
        operation: Operation::Explain,
        phase: Phase::Requesting,
        request: explain_request(host, command, version, token),
    }
}

impl Exchange {
    /// The operation under way.
    pub closed spec fn spec_operation(&self) -> Operation {
        self.operation
    }

    /// Where the exchange stands.
    pub closed spec fn spec_phase(&self) -> Phase {
        self.phase
    }

    /// The request to send.
    pub closed spec fn spec_request(&self) -> HttpRequest {
        self.request
    }

    /// The operation under way.
    pub fn operation(&self) -> (r: Operation)
        ensures
            r == self.spec_operation(),
    {
        self.operation
    }

    /// Where the exchange stands.
    pub fn phase(&self) -> (r: Phase)
        ensures
            r == self.spec_phase(),
    {
        self.phase
    }

    /// The request to send.
    pub fn request(&self) -> (r: &HttpRequest)
        ensures
            *r == self.spec_request(),
    {
        &self.request
    }

    /// The request could not be completed; no status will come.
    pub fn on_transport_failure(&mut self) -> (r: Action)
        requires
            old(self).spec_phase() == Phase::Requesting,
        ensures
            r == Action::Finish(Err(ApiError::TransportFailure)),
            final(self).spec_phase() == Phase::Done,
            final(self).spec_operation() == old(self).spec_operation(),
            final(self).spec_request() == old(self).spec_request(),
    {
        self.phase = Phase::Done;
        Action::Finish(Err(ApiError::TransportFailure))
    }

    /// The response arrived with `status`. Only statuses whose body matters
    /// ask for the body to be read.
    pub fn on_status(&mut self, status: u16) -> (r: Action)
        requires
            old(self).spec_phase() == Phase::Requesting,
        ensures
            r == status_action(old(self).spec_operation(), status),
            final(self).spec_phase() == phase_after(r),
            final(self).spec_operation() == old(self).spec_operation(),
            final(self).spec_request() == old(self).spec_request(),
    {
        let action = match self.operation {
            Operation::Register => if status == STATUS_CREATED {
                Action::Finish(Ok(Success::Registered))
            } else if status == STATUS_BAD_REQUEST {
                Action::ReadBody(PayloadKind::FieldErrors)
            } else {
                Action::Finish(Err(ApiError::ServerError(status)))
            },
            Operation::Login => if status == STATUS_OK {
                Action::ReadBody(PayloadKind::Token)
            } else if status == STATUS_BAD_REQUEST {
                Action::Finish(Err(ApiError::AuthFailure))
            } else {
                Action::Finish(Err(ApiError::ServerError(status)))
            },
            Operation::Lookup | Operation::Explain => if status == STATUS_OK {
                Action::ReadBody(PayloadKind::Answer)
            } else if status == STATUS_UNAUTHORIZED {
                Action::Finish(Err(ApiError::AuthFailure))
            } else if status == STATUS_TOO_MANY_REQUESTS {
                Action::Finish(Err(ApiError::QuotaExceeded))
            } else {
                Action::Finish(Err(ApiError::ServerError(status)))
            },
        };
        self.phase = match action {
            Action::ReadBody(_) => Phase::ReadingBody,
            Action::SaveToken(_) => Phase::Saving,
            Action::Finish(_) => Phase::Done,
        };
        action
    }

    /// The body was read: `Some` with what it held, `None` when it did not
    /// have the expected shape. An issued credential is stored as it came,
    /// whatever text it is.
    pub fn on_body(&mut self, body: Option<Payload>) -> (r: Action)
        requires
            old(self).spec_phase() == Phase::ReadingBody,
        ensures
            r == body_action(old(self).spec_operation(), body),
            final(self).spec_phase() == phase_after(r),
            final(self).spec_operation() == old(self).spec_operation(),
            final(self).spec_request() == old(self).spec_request(),
    {
        let action = match (self.operation, body) {
            (Operation::Register, Some(Payload::FieldErrors(e))) => Action::Finish(
                Err(ApiError::ValidationFailure(e)),
            ),
            (Operation::Login, Some(Payload::Token(t))) => Action::SaveToken(t),
            (Operation::Lookup, Some(Payload::Answer(a))) => Action::Finish(
                Ok(Success::Answer(a)),
            ),
            (Operation::Explain, Some(Payload::Answer(a))) => Action::Finish(
                Ok(Success::Answer(a)),
            ),
            _ => Action::Finish(Err(ApiError::UnexpectedResponseShape)),
        };
        self.phase = match action {
            Action::ReadBody(_) => Phase::ReadingBody,
            Action::SaveToken(_) => Phase::Saving,
            Action::Finish(_) => Phase::Done,
        };
        action
    }

    /// Storing the issued credential worked (`stored`) or failed. A failure
    /// is reported as such, even though the service accepted the login.
    pub fn on_saved(&mut self, stored: bool) -> (r: Action)
        requires
            old(self).spec_phase() == Phase::Saving,
        ensures
            r == saved_action(stored),
            final(self).spec_phase() == Phase::Done,
            final(self).spec_operation() == old(self).spec_operation(),
            final(self).spec_request() == old(self).spec_request(),
    {
        self.phase = Phase::Done;
        if stored {
            Action::Finish(Ok(Success::LoggedIn))
        } else {
            Action::Finish(Err(ApiError::StorageError))
        }
    }
}

/// A login answered with `200 OK` and a credential asks to store exactly that
/// credential, and the stored file reads back as it.
pub proof fn lemma_login_stores_issued_token(token: String)
    ensures
        status_action(Operation::Login, STATUS_OK) == Action::ReadBody(PayloadKind::Token),
        body_action(Operation::Login, Some(Payload::Token(token))) == Action::SaveToken(token),
        session_of(Some(saved_text(token@))) == Some(token@),
{
}

/// A lookup or explanation answered with `401 Unauthorized` ends in
/// `AuthFailure` without reading the body, whatever it holds.
pub proof fn lemma_unauthorized_is_auth_failure(op: Operation)
    requires
        op == Operation::Lookup || op == Operation::Explain,
    ensures
        status_action(op, STATUS_UNAUTHORIZED) == Action::Finish(Err(ApiError::AuthFailure)),
{
}

/// A lookup or explanation answered with `429 Too Many Requests` ends in
/// `QuotaExceeded` without reading the body.
pub proof fn lemma_too_many_requests_is_quota_exceeded(op: Operation)
    requires
        op == Operation::Lookup || op == Operation::Explain,
    ensures
        status_action(op, STATUS_TOO_MANY_REQUESTS) == Action::Finish(
            Err(ApiError::QuotaExceeded),
        ),
{
}

} // verus!
