//! Authentication entities and domain-level errors.

use vstd::prelude::*;

use crate::text::concat2;

verus! {

/// Authenticated user entity used by application logic.
#[derive(Debug, Clone, PartialEq, Eq)]
pub struct AuthenticatedUser {
    pub id: String,
    pub email: Option<String>,
    pub full_name: Option<String>,
    pub avatar_url: Option<String>,
}

/// Domain-level auth errors (transport-agnostic).
#[derive(Debug, Clone, PartialEq, Eq)]
pub enum AuthDomainError {
    Unauthorized(String),
    BadRequest(String),
    ExternalService(String),
    Configuration(String),
    Internal(String),
}

/// The kinds of domain auth error.
#[derive(Debug, Clone, Copy, PartialEq, Eq, Structural)]
pub enum AuthErrorKind {
    Unauthorized,
    BadRequest,
    ExternalService,
    Configuration,
    Internal,
}

impl AuthDomainError {
    /// The kind of the error.
    pub open spec fn kind(&self) -> AuthErrorKind {
        match self {
            AuthDomainError::Unauthorized(_) => AuthErrorKind::Unauthorized,
            AuthDomainError::BadRequest(_) => AuthErrorKind::BadRequest,
            AuthDomainError::ExternalService(_) => AuthErrorKind::ExternalService,
            AuthDomainError::Configuration(_) => AuthErrorKind::Configuration,
            AuthDomainError::Internal(_) => AuthErrorKind::Internal,
        }
    }

    /// The detail text the error carries.
    pub open spec fn detail(&self) -> Seq<char> {
        match self {
            AuthDomainError::Unauthorized(m) => m@,
            AuthDomainError::BadRequest(m) => m@,
            AuthDomainError::ExternalService(m) => m@,
            AuthDomainError::Configuration(m) => m@,
            AuthDomainError::Internal(m) => m@,
        }
    }

    /// The error of the given kind carrying `detail`.
    pub fn of_kind(kind: AuthErrorKind, detail: String) -> (r: AuthDomainError)
        ensures
            r.kind() == kind,
            r.detail() == detail@,
    {
        match kind {
            AuthErrorKind::Unauthorized => AuthDomainError::Unauthorized(detail),
            AuthErrorKind::BadRequest => AuthDomainError::BadRequest(detail),
            AuthErrorKind::ExternalService => AuthDomainError::ExternalService(detail),
            AuthErrorKind::Configuration => AuthDomainError::Configuration(detail),
            AuthErrorKind::Internal => AuthDomainError::Internal(detail),
        }
    }

    /// The error message (its display form).
    pub open spec fn message(&self) -> Seq<char> {
        match self {
            AuthDomainError::Unauthorized(m) => "Authentication failed: "@ + m@,
            AuthDomainError::BadRequest(m) => "Invalid request: "@ + m@,
            AuthDomainError::ExternalService(m) => "External service error: "@ + m@,
            AuthDomainError::Configuration(m) => "Configuration error: "@ + m@,
            AuthDomainError::Internal(m) => "Internal error: "@ + m@,
        }
    }

    /// The error message (its display form).
    pub fn to_string(&self) -> (r: String)
        ensures
            r@ == self.message(),
    {
        match self {
            AuthDomainError::Unauthorized(m) => concat2("Authentication failed: ", m.as_str()),
            AuthDomainError::BadRequest(m) => concat2("Invalid request: ", m.as_str()),
            AuthDomainError::ExternalService(m) => concat2("External service error: ", m.as_str()),
            AuthDomainError::Configuration(m) => concat2("Configuration error: ", m.as_str()),
            AuthDomainError::Internal(m) => concat2("Internal error: ", m.as_str()),
        }
    }
}

} // verus!
