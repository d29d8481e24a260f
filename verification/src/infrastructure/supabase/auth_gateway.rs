//! Supabase auth gateway decisions: the endpoints it calls and what each
//! reply of Supabase means for the caller.

use vstd::prelude::*;

use crate::domain::auth::{AuthDomainError, AuthErrorKind, AuthenticatedUser};
use crate::http_status::{
    is_client_error, is_client_error_spec, is_server_error, is_server_error_spec, status_text,
    status_text_spec, valid_status,
};
use crate::infrastructure::supabase::models::SupabaseUserRecord;
use crate::json::{json_string, json_string_of};
use crate::string_map::pairs_of;
use crate::text::{concat2, concat3, concat4, owned};
use crate::upstream::UpstreamReply;

verus! {

/// Supabase treats the status as an outage: too many requests or a 5xx.
pub open spec fn upstream_unavailable(status: u16) -> bool {
    status == 429 || is_server_error_spec(status)
}

/// The kind and detail of the domain error for a failed bearer-token lookup.
pub open spec fn user_lookup_error_spec(status: u16) -> (AuthErrorKind, Seq<char>) {
    if status == 401 || status == 403 {
        (AuthErrorKind::Unauthorized, "Invalid bearer token"@)
    } else if upstream_unavailable(status) {
        (
            AuthErrorKind::ExternalService,
            "Supabase auth service unavailable (status "@ + status_text_spec(status) + ")"@,
        )
    } else if is_client_error_spec(status) {
        (
            AuthErrorKind::BadRequest,
            "Supabase auth request rejected (status "@ + status_text_spec(status) + ")"@,
        )
    } else {
        (AuthErrorKind::ExternalService, "Supabase auth failed (status "@ + status_text_spec(status) + ")"@)
    }
}

/// Whether `e` has the given kind and detail.
pub open spec fn auth_error_is(e: AuthDomainError, expected: (AuthErrorKind, Seq<char>)) -> bool {
    e.kind() == expected.0 && e.detail() == expected.1
}

/// The domain error for a failed bearer-token lookup: 401 and 403 mean the
/// token is invalid, 429 and 5xx an outage, other 4xx a rejected request.
pub fn map_user_lookup_error(status: u16) -> (r: AuthDomainError)
    requires
        valid_status(status),
    ensures
        auth_error_is(r, user_lookup_error_spec(status)),
{
    if status == 401 || status == 403 {
        return AuthDomainError::Unauthorized(owned("Invalid bearer token"));
    }
    let text = status_text(status);
    if status == 429 || is_server_error(status) {
        return AuthDomainError::ExternalService(
            concat3("Supabase auth service unavailable (status ", text.as_str(), ")"),
        );
    }
    if is_client_error(status) {
        return AuthDomainError::BadRequest(
            concat3("Supabase auth request rejected (status ", text.as_str(), ")"),
        );
    }
    AuthDomainError::ExternalService(concat3("Supabase auth failed (status ", text.as_str(), ")"))
}

/// The kind and detail of the domain error for a failed provider exchange.
pub open spec fn provider_exchange_error_spec(status: u16, provider: Seq<char>) -> (
    AuthErrorKind,
    Seq<char>,
) {
    if is_client_error_spec(status) && status != 429 {
        (
            AuthErrorKind::BadRequest,
            "Failed to authenticate with "@ + provider + " (status "@ + status_text_spec(status)
                + ")"@,
        )
    } else {
        (
            AuthErrorKind::ExternalService,
            "Provider token exchange failed for "@ + provider + " (status "@ + status_text_spec(
                status,
            ) + ")"@,
        )
    }
}

/// The domain error for a failed provider-token exchange: a 4xx other than
/// 429 is a bad request, anything else an upstream failure.
pub fn map_provider_exchange_error(status: u16, provider: &str) -> (r: AuthDomainError)
    requires
        valid_status(status),
    ensures
        auth_error_is(r, provider_exchange_error_spec(status, provider@)),
{
    let text = status_text(status);
    if status == 429 || is_server_error(status) {
        let head = concat3("Provider token exchange failed for ", provider, " (status ");
        return AuthDomainError::ExternalService(concat3(head.as_str(), text.as_str(), ")"));
    }
    if is_client_error(status) {
        let head = concat3("Failed to authenticate with ", provider, " (status ");
        return AuthDomainError::BadRequest(concat3(head.as_str(), text.as_str(), ")"));
    }
    let head = concat3("Provider token exchange failed for ", provider, " (status ");
    AuthDomainError::ExternalService(concat3(head.as_str(), text.as_str(), ")"))
}

/// The endpoint that resolves a bearer token to its user.
pub fn user_lookup_url(supabase_url: &str) -> (r: String)
    ensures
        r@ == supabase_url@ + "/auth/v1/user"@,
{
    concat2(supabase_url, "/auth/v1/user")
}

/// The endpoint that exchanges a provider id token for a session.
pub fn token_exchange_url(supabase_url: &str) -> (r: String)
    ensures
        r@ == supabase_url@ + "/auth/v1/token?grant_type=id_token"@,
{
    concat2(supabase_url, "/auth/v1/token?grant_type=id_token")
}

/// The headers of a bearer-token lookup: the token to resolve as the bearer
/// credential, and the service key as the API key.
pub fn user_lookup_headers(service_key: &str, bearer_token: &str) -> (r: Vec<(String, String)>)
    ensures
        pairs_of(r@) == seq![
            ("Authorization"@, "Bearer "@ + bearer_token@),
            ("apikey"@, service_key@),
        ],
{
    let mut headers: Vec<(String, String)> = Vec::new();
    headers.push((owned("Authorization"), concat2("Bearer ", bearer_token)));
    headers.push((owned("apikey"), owned(service_key)));
    assert(pairs_of(headers@) =~= seq![
        ("Authorization"@, "Bearer "@ + bearer_token@),
        ("apikey"@, service_key@),
    ]);
    headers
}

/// The headers of a token exchange: the service key as the API key and a
/// JSON content type.
pub fn token_exchange_headers(service_key: &str) -> (r: Vec<(String, String)>)
    ensures
        pairs_of(r@) == seq![("apikey"@, service_key@), ("Content-Type"@, "application/json"@)],
{
    let mut headers: Vec<(String, String)> = Vec::new();
    headers.push((owned("apikey"), owned(service_key)));
    headers.push((owned("Content-Type"), owned("application/json")));
    assert(pairs_of(headers@) =~= seq![
        ("apikey"@, service_key@),
        ("Content-Type"@, "application/json"@),
    ]);
    headers
}

/// The JSON body of a token exchange: the provider and its id token.
pub fn token_exchange_body(provider: &str, id_token: &str) -> (r: String)
    ensures
        r@ == "{\"provider\":"@ + json_string_of(provider@) + ",\"id_token\":"@
            + json_string_of(id_token@) + "}"@,
{
    let p = json_string(provider);
    let t = json_string(id_token);
    let head = concat4("{\"provider\":", p.as_str(), ",\"id_token\":", t.as_str());
    concat2(head.as_str(), "}")
}

/// What a bearer-token lookup reply means: the user, or the domain error.
pub fn user_lookup_outcome(reply: UpstreamReply<SupabaseUserRecord>) -> (r: Result<
    AuthenticatedUser,
    AuthDomainError,
>)
    requires
        reply.wf(),
    ensures
        match reply {
            UpstreamReply::SendFailed(e) => r matches Err(err) && auth_error_is(
                err,
                (AuthErrorKind::ExternalService, "Supabase request failed: "@ + e@),
            ),
            UpstreamReply::Rejected(status, _) => r matches Err(err) && auth_error_is(
                err,
                user_lookup_error_spec(status),
            ),
            UpstreamReply::Unparsable(e) => r matches Err(err) && auth_error_is(
                err,
                (AuthErrorKind::ExternalService, "Failed to parse Supabase user payload: "@ + e@),
            ),
            UpstreamReply::Parsed(record) => r matches Ok(u) && u.id == record.id && u.email
                == record.email && u.full_name == record.user_metadata.full_name && u.avatar_url
                == record.user_metadata.avatar_url,
        },
{
    match reply {
        UpstreamReply::SendFailed(e) => Err(
            AuthDomainError::ExternalService(concat2("Supabase request failed: ", e.as_str())),
        ),
        UpstreamReply::Rejected(status, _) => Err(map_user_lookup_error(status)),
        UpstreamReply::Unparsable(e) => Err(
            AuthDomainError::ExternalService(
                concat2("Failed to parse Supabase user payload: ", e.as_str()),
            ),
        ),
        UpstreamReply::Parsed(record) => Ok(AuthenticatedUser::from_record(record)),
    }
}

/// What a provider-token exchange reply means: the access token, or the
/// domain error.
pub fn provider_exchange_outcome(reply: UpstreamReply<String>, provider: &str) -> (r: Result<
    String,
    AuthDomainError,
>)
    requires
        reply.wf(),
    ensures
        match reply {
            UpstreamReply::SendFailed(e) => r matches Err(err) && auth_error_is(
                err,
                (AuthErrorKind::ExternalService, "Provider token exchange failed: "@ + e@),
            ),
            UpstreamReply::Rejected(status, _) => r matches Err(err) && auth_error_is(
                err,
                provider_exchange_error_spec(status, provider@),
            ),
            UpstreamReply::Unparsable(e) => r matches Err(err) && auth_error_is(
                err,
                (
                    AuthErrorKind::ExternalService,
                    "Failed to parse Supabase provider token response: "@ + e@,
                ),
            ),
            UpstreamReply::Parsed(token) => r matches Ok(t) && t == token,
        },
{
    match reply {
        UpstreamReply::SendFailed(e) => Err(
            AuthDomainError::ExternalService(concat2("Provider token exchange failed: ", e.as_str())),
        ),
        UpstreamReply::Rejected(status, _) => Err(map_provider_exchange_error(status, provider)),
        UpstreamReply::Unparsable(e) => Err(
            AuthDomainError::ExternalService(
                concat2("Failed to parse Supabase provider token response: ", e.as_str()),
            ),
        ),
        UpstreamReply::Parsed(token) => Ok(token),
    }
}

} // verus!
