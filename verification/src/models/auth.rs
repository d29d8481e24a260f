//! Authentication and user-profile types, and the rules that a provider
//! token exchange request must meet.

use vstd::prelude::*;

use crate::text::{concat3, owned, str_eq};
use crate::validation::{field_error, push_if, FieldErrorView, ValidationError, ValidationErrors};

verus! {

/// Authenticated user profile.
#[derive(Debug, Clone)]
pub struct UserProfile {
    pub id: String,
    pub email: String,
    pub full_name: Option<String>,
    pub avatar_url: Option<String>,
}

/// OAuth token pair returned after authentication.
#[derive(Debug, Clone)]
pub struct TokenResponse {
    pub access_token: String,
    pub token_type: String,
}

impl TokenResponse {
    /// A bearer token response for `access_token`.
    pub fn bearer(access_token: &str) -> (r: TokenResponse)
        ensures
            r.access_token@ == access_token@,
            r.token_type@ == "bearer"@,
    {
        TokenResponse { access_token: owned(access_token), token_type: owned("bearer") }
    }
}

/// Request body for provider-token exchange.
#[derive(Debug, Clone)]
pub struct ProviderTokenRequest {
    pub provider: String,
    pub token: String,
}

/// The OAuth providers whose tokens can be exchanged.
pub open spec fn supported_provider(p: Seq<char>) -> bool {
    p == "google"@ || p == "linkedin"@
}

/// The message for an unsupported provider.
pub open spec fn unsupported_provider_message(p: Seq<char>) -> Seq<char> {
    "Unsupported provider: "@ + p + ". Supported: google, linkedin"@
}

/// Accepts the supported providers (`google`, `linkedin`); any other value is
/// an `invalid_provider` error naming the value and the supported ones.
pub fn validate_provider(provider: &str) -> (r: Result<(), ValidationError>)
    ensures
        r is Ok <==> supported_provider(provider@),
        r matches Err(e) ==> (e.code@ == "invalid_provider"@ && (e.message matches Some(m) && m@
            == unsupported_provider_message(provider@))),
{
    if str_eq(provider, "google") || str_eq(provider, "linkedin") {
        return Ok(());
    }
    Err(
        ValidationError {
            code: owned("invalid_provider"),
            message: Some(concat3("Unsupported provider: ", provider, ". Supported: google, linkedin")),
        },
    )
}

impl ProviderTokenRequest {
    /// The rules broken by this request: an unsupported `provider`, then an
    /// empty `token`.
    pub open spec fn broken_rules(provider: Seq<char>, token: Seq<char>) -> Seq<FieldErrorView> {
        push_if(
            push_if(
                Seq::empty(),
                !supported_provider(provider),
                field_error("provider"@, "invalid_provider"@, unsupported_provider_message(provider)),
            ),
            token.len() == 0,
            field_error("token"@, "length"@, "Token cannot be empty"@),
        )
    }

    /// Checks the request: the provider must be supported and the token must
    /// not be empty.
    pub fn validate(&self) -> (r: Result<(), ValidationErrors>)
        ensures
            r is Ok <==> Self::broken_rules(self.provider@, self.token@).len() == 0,
            r matches Err(e) ==> e@ == Self::broken_rules(self.provider@, self.token@),
    {
        let mut errors = ValidationErrors::new();
        match validate_provider(self.provider.as_str()) {
            Ok(()) => {},
            Err(e) => {
                errors.add_error("provider", e);
            },
        }
        if self.token.as_str().is_empty() {
            errors.add("token", "length", "Token cannot be empty");
        }
        errors.into_result()
    }
}

/// Metadata embedded in the Supabase user record.
#[derive(Debug, Clone)]
pub struct UserMetadata {
    pub full_name: Option<String>,
    pub avatar_url: Option<String>,
}

impl Default for UserMetadata {
    fn default() -> (r: UserMetadata)
        ensures
            r.full_name is None,
            r.avatar_url is None,
    {
        UserMetadata { full_name: None, avatar_url: None }
    }
}

/// Raw user record from Supabase.
#[derive(Debug, Clone)]
pub struct SupabaseUser {
    pub id: String,
    pub email: Option<String>,
    pub user_metadata: UserMetadata,
}

impl UserProfile {
    /// The profile of a Supabase user: a missing email becomes the empty string.
    pub fn from_supabase_user(u: SupabaseUser) -> (r: UserProfile)
        ensures
            r.id@ == u.id@,
            r.email@ == match u.email {
                Some(e) => e@,
                None => Seq::<char>::empty(),
            },
            r.full_name == u.user_metadata.full_name,
            r.avatar_url == u.user_metadata.avatar_url,
    {
        UserProfile {
            id: u.id,
            email: match u.email {
                Some(e) => e,
                None => String::new(),
            },
            full_name: u.user_metadata.full_name,
            avatar_url: u.user_metadata.avatar_url,
        }
    }
}

} // verus!
