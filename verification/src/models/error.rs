//! Error types and API error responses: each error's message and the HTTP
//! status it is answered with.

use vstd::prelude::*;

use crate::http_status::{is_client_error, is_client_error_spec, status_text, status_text_spec, valid_status};
use crate::text::{concat2, concat3, concat4, owned};

verus! {

/// Application error type.
#[derive(Debug)]
pub enum AppError {
    Unauthorized(String),
    Forbidden(String),
    NotFound(String),
    BadRequest(String),
    Validation(String),
    ExternalService(String),
    Configuration(String),
    Internal(String),
}

/// The level at which an answered error is logged.
#[derive(Debug, Clone, Copy, PartialEq, Eq, Structural)]
pub enum LogLevel {
    Warn,
    Error,
}

/// The kinds of application error.
#[derive(Debug, Clone, Copy, PartialEq, Eq, Structural)]
pub enum AppErrorKind {
    Unauthorized,
    Forbidden,
    NotFound,
    BadRequest,
    Validation,
    ExternalService,
    Configuration,
    Internal,
}

impl AppError {
    /// The kind of the error.
    pub open spec fn kind(&self) -> AppErrorKind {
        match self {
            AppError::Unauthorized(_) => AppErrorKind::Unauthorized,
            AppError::Forbidden(_) => AppErrorKind::Forbidden,
            AppError::NotFound(_) => AppErrorKind::NotFound,
            AppError::BadRequest(_) => AppErrorKind::BadRequest,
            AppError::Validation(_) => AppErrorKind::Validation,
            AppError::ExternalService(_) => AppErrorKind::ExternalService,
            AppError::Configuration(_) => AppErrorKind::Configuration,
            AppError::Internal(_) => AppErrorKind::Internal,
        }
    }

    /// The detail text the error carries.
    pub open spec fn detail(&self) -> Seq<char> {
        match self {
            AppError::Unauthorized(m) => m@,
            AppError::Forbidden(m) => m@,
            AppError::NotFound(m) => m@,
            AppError::BadRequest(m) => m@,
            AppError::Validation(m) => m@,
            AppError::ExternalService(m) => m@,
            AppError::Configuration(m) => m@,
            AppError::Internal(m) => m@,
        }
    }

    /// Whether the error has the given kind and detail.
    pub open spec fn is(&self, kind: AppErrorKind, detail: Seq<char>) -> bool {
        self.kind() == kind && self.detail() == detail
    }

    /// The error message (its display form).
    pub open spec fn message(&self) -> Seq<char> {
        match self {
            AppError::Unauthorized(m) => "Authentication failed: "@ + m@,
            AppError::Forbidden(m) => "Access denied: "@ + m@,
            AppError::NotFound(m) => "Resource not found: "@ + m@,
            AppError::BadRequest(m) => "Invalid request: "@ + m@,
            AppError::Validation(m) => "Validation error: "@ + m@,
            AppError::ExternalService(m) => "External service error: "@ + m@,
            AppError::Configuration(m) => "Configuration error: "@ + m@,
            AppError::Internal(m) => "Internal server error: "@ + m@,
        }
    }

    /// The HTTP status the error is answered with.
    pub open spec fn status(&self) -> u16 {
        match self {
            AppError::Unauthorized(_) => 401,
            AppError::Forbidden(_) => 403,
            AppError::NotFound(_) => 404,
            AppError::BadRequest(_) => 400,
            AppError::Validation(_) => 400,
            AppError::ExternalService(_) => 502,
            AppError::Configuration(_) => 500,
            AppError::Internal(_) => 500,
        }
    }

    /// The error message (its display form).
    pub fn to_string(&self) -> (r: String)
        ensures
            r@ == self.message(),
    {
        match self {
            AppError::Unauthorized(m) => concat2("Authentication failed: ", m.as_str()),
            AppError::Forbidden(m) => concat2("Access denied: ", m.as_str()),
            AppError::NotFound(m) => concat2("Resource not found: ", m.as_str()),
            AppError::BadRequest(m) => concat2("Invalid request: ", m.as_str()),
            AppError::Validation(m) => concat2("Validation error: ", m.as_str()),
            AppError::ExternalService(m) => concat2("External service error: ", m.as_str()),
            AppError::Configuration(m) => concat2("Configuration error: ", m.as_str()),
            AppError::Internal(m) => concat2("Internal server error: ", m.as_str()),
        }
    }

    /// The HTTP status code for this error.
    pub fn status_code(&self) -> (r: u16)
        ensures
            r == self.status(),
    {
        match self {
            AppError::Unauthorized(_) => 401,
            AppError::Forbidden(_) => 403,
            AppError::NotFound(_) => 404,
            AppError::BadRequest(_) => 400,
            AppError::Validation(_) => 400,
            AppError::ExternalService(_) => 502,
            AppError::Configuration(_) => 500,
            AppError::Internal(_) => 500,
        }
    }

    /// How loudly the error is logged when it is answered: a warning for a
    /// client error (4xx), an error otherwise.
    pub fn log_level(&self) -> (r: LogLevel)
        ensures
            r == (if is_client_error_spec(self.status()) {
                LogLevel::Warn
            } else {
                LogLevel::Error
            }),
    {
        if is_client_error(self.status_code()) {
            LogLevel::Warn
        } else {
            LogLevel::Error
        }
    }

    /// The response body and status the error is answered with.
    pub fn to_error_response(&self) -> (r: ApiErrorResponse)
        ensures
            r.status_code == self.status(),
            r.error@ == self.message(),
            r.details is None,
    {
        ApiErrorResponse::new(self.status_code(), self.to_string())
    }

    /// The error for a failed outgoing HTTP request.
    pub fn from_http_failure(f: &HttpFailure) -> (r: AppError)
        requires
            f.wf(),
        ensures
            r matches AppError::ExternalService(m) && m@ == f.message(),
    {
        if f.timeout {
            AppError::ExternalService(concat2("HTTP client timeout: ", f.description.as_str()))
        } else if f.connect {
            AppError::ExternalService(concat2("HTTP connect error: ", f.description.as_str()))
        } else {
            match f.status {
                Some(code) => {
                    let status = status_text(code);
                    let target = match &f.url {
                        Some(u) => owned(u.as_str()),
                        None => String::new(),
                    };
                    let head = concat4(
                        "HTTP error (status ",
                        status.as_str(),
                        "): ",
                        f.description.as_str(),
                    );
                    let m = concat3(head.as_str(), "; url=", target.as_str());
                    assert(m@ =~= f.message());
                    AppError::ExternalService(m)
                },
                None => AppError::ExternalService(
                    concat2("HTTP request error: ", f.description.as_str()),
                ),
            }
        }
    }

    /// The error for a JSON (de)serialisation failure with the given description.
    pub fn from_json_error(description: &str) -> (r: AppError)
        ensures
            r matches AppError::Internal(m) && m@ == "JSON error: "@ + description@,
    {
        AppError::Internal(concat2("JSON error: ", description))
    }
}

/// What the application reads of a failed outgoing HTTP request: whether it
/// timed out or failed to connect, the status of the response if there was
/// one, the request URL and the error's description.
pub struct HttpFailure {
    pub timeout: bool,
    pub connect: bool,
    pub status: Option<u16>,
    pub url: Option<String>,
    pub description: String,
}

impl HttpFailure {
    /// A status, where present, is a valid three-digit code.
    pub open spec fn wf(&self) -> bool {
        self.status matches Some(c) ==> valid_status(c)
    }

    /// The message that describes the failure.
    pub open spec fn message(&self) -> Seq<char> {
        if self.timeout {
            "HTTP client timeout: "@ + self.description@
        } else if self.connect {
            "HTTP connect error: "@ + self.description@
        } else {
            match self.status {
                Some(c) => "HTTP error (status "@ + status_text_spec(c) + "): "@ + self.description@
                    + "; url="@ + match self.url {
                    Some(u) => u@,
                    None => Seq::<char>::empty(),
                },
                None => "HTTP request error: "@ + self.description@,
            }
        }
    }
}

/// API error response body.
#[derive(Debug, Clone)]
pub struct ApiErrorResponse {
    pub error: String,
    pub status_code: u16,
    pub details: Option<String>,
}

impl ApiErrorResponse {
    /// A response with the given status and message and no details.
    pub fn new(status_code: u16, error: String) -> (r: ApiErrorResponse)
        ensures
            r.status_code == status_code,
            r.error@ == error@,
            r.details is None,
    {
        ApiErrorResponse { error, status_code, details: None }
    }

    /// The same response with details added.
    pub fn with_details(self, details: String) -> (r: ApiErrorResponse)
        ensures
            r.status_code == self.status_code,
            r.error@ == self.error@,
            r.details matches Some(d) && d@ == details@,
    {
        ApiErrorResponse { details: Some(details), ..self }
    }
}

/// Fatal errors when building or starting the HTTP server.
#[derive(Debug)]
pub enum AppRunError {
    QdrantInit(AppError),
    HttpClientInit(AppError),
    Io(String),
}

impl AppRunError {
    /// The error message (its display form).
    pub open spec fn message(&self) -> Seq<char> {
        match self {
            AppRunError::QdrantInit(e) => "Failed to initialize Qdrant: "@ + e.message(),
            AppRunError::HttpClientInit(e) => "Failed to initialize HTTP client: "@ + e.message(),
            AppRunError::Io(m) => "Server bind or accept error: "@ + m@,
        }
    }

    /// The error message (its display form).
    pub fn to_string(&self) -> (r: String)
        ensures
            r@ == self.message(),
    {
        match self {
            AppRunError::QdrantInit(e) => {
                let m = e.to_string();
                concat2("Failed to initialize Qdrant: ", m.as_str())
            },
            AppRunError::HttpClientInit(e) => {
                let m = e.to_string();
                concat2("Failed to initialize HTTP client: ", m.as_str())
            },
            AppRunError::Io(m) => concat2("Server bind or accept error: ", m.as_str()),
        }
    }
}

} // verus!
