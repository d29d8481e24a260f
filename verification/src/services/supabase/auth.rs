//! Supabase Auth over its REST API: the user lookup and the provider-token
//! sign-in, and what their replies mean.

use vstd::prelude::*;

use crate::http_status::{status_text, status_text_spec};
use crate::models::auth::{SupabaseUser, UserProfile};
use crate::models::error::{AppError, AppErrorKind};
use crate::text::{concat2, concat3, concat4, owned, str_eq};
use crate::upstream::{body_or_empty, body_text_or_empty, UpstreamReply};

verus! {

/// Verifies JWTs and exchanges provider tokens via the Supabase Auth API.
pub struct SupabaseAuthService;

impl SupabaseAuthService {
    /// The answer to a user lookup: the profile, or `Unauthorized` with the
    /// status and body (empty if unreadable) when Supabase rejects the token.
    pub fn user_outcome(reply: UpstreamReply<SupabaseUser>) -> (r: Result<UserProfile, AppError>)
        requires
            reply.wf(),
        ensures
            match reply {
                UpstreamReply::SendFailed(e) => r matches Err(err) && err.is(
                    AppErrorKind::ExternalService,
                    "Supabase request failed: "@ + e@,
                ),
                UpstreamReply::Rejected(status, body) => r matches Err(err) && err.is(
                    AppErrorKind::Unauthorized,
                    "Invalid token ("@ + status_text_spec(status) + "): "@ + body_or_empty(body),
                ),
                UpstreamReply::Unparsable(e) => r matches Err(err) && err.is(
                    AppErrorKind::ExternalService,
                    "User data parse error: "@ + e@,
                ),
                UpstreamReply::Parsed(u) => r matches Ok(p) && p.id@ == u.id@ && p.email@
                    == match u.email {
                    Some(e) => e@,
                    None => Seq::<char>::empty(),
                } && p.full_name == u.user_metadata.full_name && p.avatar_url
                    == u.user_metadata.avatar_url,
            },
    {
        match reply {
            UpstreamReply::SendFailed(e) => Err(
                AppError::ExternalService(concat2("Supabase request failed: ", e.as_str())),
            ),
            UpstreamReply::Rejected(status, body) => {
                let text = status_text(status);
                let b = body_text_or_empty(&body);
                Err(
                    AppError::Unauthorized(
                        concat4("Invalid token (", text.as_str(), "): ", b.as_str()),
                    ),
                )
            },
            UpstreamReply::Unparsable(e) => Err(
                AppError::ExternalService(concat2("User data parse error: ", e.as_str())),
            ),
            UpstreamReply::Parsed(u) => Ok(UserProfile::from_supabase_user(u)),
        }
    }

    /// Checked before any request: only `google` and `linkedin` tokens can
    /// be exchanged.
    pub fn check_provider(provider: &str) -> (r: Result<(), AppError>)
        ensures
            r is Ok <==> (provider@ == "google"@ || provider@ == "linkedin"@),
            r matches Err(err) ==> err.is(AppErrorKind::BadRequest, "Unsupported provider: "@ + provider@),
    {
        if str_eq(provider, "google") || str_eq(provider, "linkedin") {
            Ok(())
        } else {
            Err(AppError::BadRequest(concat2("Unsupported provider: ", provider)))
        }
    }

    /// The answer to a sign-in with a provider token: the access token, or
    /// a bad request naming the provider and the body (empty if unreadable).
    pub fn sign_in_outcome(reply: UpstreamReply<String>, provider: &str) -> (r: Result<
        String,
        AppError,
    >)
        requires
            reply.wf(),
        ensures
            match reply {
                UpstreamReply::SendFailed(e) => r matches Err(err) && err.is(
                    AppErrorKind::ExternalService,
                    "Token exchange failed: "@ + e@,
                ),
                UpstreamReply::Rejected(_, body) => r matches Err(err) && err.is(
                    AppErrorKind::BadRequest,
                    "Auth with "@ + provider@ + " failed: "@ + body_or_empty(body),
                ),
                UpstreamReply::Unparsable(e) => r matches Err(err) && err.is(
                    AppErrorKind::ExternalService,
                    "Token parse error: "@ + e@,
                ),
                UpstreamReply::Parsed(t) => r matches Ok(s) && s@ == t@,
            },
    {
        match reply {
            UpstreamReply::SendFailed(e) => Err(
                AppError::ExternalService(concat2("Token exchange failed: ", e.as_str())),
            ),
            UpstreamReply::Rejected(_, body) => {
                let b = body_text_or_empty(&body);
                Err(AppError::BadRequest(concat4("Auth with ", provider, " failed: ", b.as_str())))
            },
            UpstreamReply::Unparsable(e) => Err(
                AppError::ExternalService(concat2("Token parse error: ", e.as_str())),
            ),
            UpstreamReply::Parsed(t) => Ok(t),
        }
    }
}

} // verus!
