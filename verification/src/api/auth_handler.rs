//! How domain auth errors are answered as API errors.

use vstd::prelude::*;

use crate::domain::auth::AuthDomainError;
use crate::models::error::AppError;

verus! {

/// The API error for a domain auth error: same kind, same message.
pub open spec fn api_error_of(error: AuthDomainError) -> AppError {
    match error {
        AuthDomainError::Unauthorized(m) => AppError::Unauthorized(m),
        AuthDomainError::BadRequest(m) => AppError::BadRequest(m),
        AuthDomainError::ExternalService(m) => AppError::ExternalService(m),
        AuthDomainError::Configuration(m) => AppError::Configuration(m),
        AuthDomainError::Internal(m) => AppError::Internal(m),
    }
}

/// Converts domain auth errors into transport/API errors.
pub fn map_auth_error(error: AuthDomainError) -> (r: AppError)
    ensures
        r == api_error_of(error),
{
    match error {
        AuthDomainError::Unauthorized(message) => AppError::Unauthorized(message),
        AuthDomainError::BadRequest(message) => AppError::BadRequest(message),
        AuthDomainError::ExternalService(message) => AppError::ExternalService(message),
        AuthDomainError::Configuration(message) => AppError::Configuration(message),
        AuthDomainError::Internal(message) => AppError::Internal(message),
    }
}

/// An authentication failure is always answered with 401, bad input with
/// 400, an upstream failure with 502 and a configuration or internal failure
/// with 500.
pub proof fn auth_error_status(error: AuthDomainError)
    ensures
        api_error_of(error).status() == match error {
            AuthDomainError::Unauthorized(_) => 401u16,
            AuthDomainError::BadRequest(_) => 400u16,
            AuthDomainError::ExternalService(_) => 502u16,
            AuthDomainError::Configuration(_) => 500u16,
            AuthDomainError::Internal(_) => 500u16,
        },
{
}

} // verus!
