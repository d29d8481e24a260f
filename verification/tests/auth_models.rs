use backend::api::auth::to_api_user_profile;
use backend::api::auth_handler::map_auth_error;
use backend::domain::auth::{AuthDomainError, AuthenticatedUser};
use backend::infrastructure::supabase::auth_gateway::{
    map_provider_exchange_error, map_user_lookup_error,
};
use backend::infrastructure::supabase::models::{SupabaseUserMetadata, SupabaseUserRecord};
use backend::models::auth::{
    validate_provider, ProviderTokenRequest, SupabaseUser, TokenResponse, UserMetadata,
    UserProfile,
};
use backend::models::error::AppError;

#[test]
fn bearer_token_response() {
    let r = TokenResponse::bearer("tok");
    assert_eq!(r.access_token, "tok");
    assert_eq!(r.token_type, "bearer");
}

#[test]
fn valid_providers_accepted() {
    assert!(validate_provider("google").is_ok());
    assert!(validate_provider("linkedin").is_ok());
}

#[test]
fn invalid_provider_rejected() {
    let err = validate_provider("github").unwrap_err();
    assert_eq!(err.code, "invalid_provider");
}

#[test]
fn empty_provider_rejected() {
    assert!(validate_provider("").is_err());
}

#[test]
fn valid_request_passes() {
    let r = ProviderTokenRequest {
        provider: "google".into(),
        token: "t".into(),
    };
    assert!(r.validate().is_ok());
}

#[test]
fn empty_token_rejected() {
    let r = ProviderTokenRequest {
        provider: "google".into(),
        token: String::new(),
    };
    assert!(r.validate().is_err());
}

#[test]
fn bad_provider_rejected() {
    let r = ProviderTokenRequest {
        provider: "twitter".into(),
        token: "t".into(),
    };
    assert!(r.validate().is_err());
}

#[test]
fn supabase_user_converts_with_all_fields() {
    let u = SupabaseUser {
        id: "1".into(),
        email: Some("a@b.com".into()),
        user_metadata: UserMetadata {
            full_name: Some("Alice".into()),
            avatar_url: Some("https://img".into()),
        },
    };
    let p: UserProfile = UserProfile::from_supabase_user(u);
    assert_eq!(p.id, "1");
    assert_eq!(p.email, "a@b.com");
    assert_eq!(p.full_name.as_deref(), Some("Alice"));
    assert_eq!(p.avatar_url.as_deref(), Some("https://img"));
}

#[test]
fn supabase_user_converts_with_missing_fields() {
    let u = SupabaseUser {
        id: "2".into(),
        email: None,
        user_metadata: UserMetadata::default(),
    };
    let p: UserProfile = UserProfile::from_supabase_user(u);
    assert_eq!(p.email, "");
    assert!(p.full_name.is_none());
}

#[test]
fn both_request_errors_are_reported() {
    let r = ProviderTokenRequest {
        provider: "twitter".into(),
        token: String::new(),
    };
    let errs = r.validate().unwrap_err();
    assert_eq!(errs.errors.len(), 2);
}

#[test]
fn user_lookup_maps_unauthorized_statuses() {
    assert!(matches!(
        map_user_lookup_error(401),
        AuthDomainError::Unauthorized(_)
    ));
    assert!(matches!(
        map_user_lookup_error(403),
        AuthDomainError::Unauthorized(_)
    ));
}

#[test]
fn user_lookup_maps_upstream_outages_to_external_service() {
    assert!(matches!(
        map_user_lookup_error(429),
        AuthDomainError::ExternalService(_)
    ));
    assert!(matches!(
        map_user_lookup_error(502),
        AuthDomainError::ExternalService(_)
    ));
}

#[test]
fn provider_exchange_maps_status_classes() {
    assert!(matches!(
        map_provider_exchange_error(400, "google"),
        AuthDomainError::BadRequest(_)
    ));
    assert!(matches!(
        map_provider_exchange_error(429, "google"),
        AuthDomainError::ExternalService(_)
    ));
    assert!(matches!(
        map_provider_exchange_error(500, "google"),
        AuthDomainError::ExternalService(_)
    ));
}

#[test]
fn user_lookup_message_carries_status_text() {
    match map_user_lookup_error(502) {
        AuthDomainError::ExternalService(m) => {
            assert_eq!(m, "Supabase auth service unavailable (status 502 Bad Gateway)")
        }
        _ => panic!("unexpected error kind"),
    }
}

#[test]
fn domain_errors_map_to_http_errors() {
    let e = map_auth_error(AuthDomainError::Unauthorized("no".into()));
    assert!(matches!(e, AppError::Unauthorized(ref m) if m == "no"));
    assert_eq!(e.status_code(), 401);
    let e = map_auth_error(AuthDomainError::BadRequest("bad".into()));
    assert_eq!(e.status_code(), 400);
    let e = map_auth_error(AuthDomainError::ExternalService("down".into()));
    assert_eq!(e.status_code(), 502);
}

#[test]
fn authenticated_user_from_record_and_profile() {
    let record = SupabaseUserRecord {
        id: "u1".into(),
        email: None,
        user_metadata: SupabaseUserMetadata {
            full_name: Some("Bo".into()),
            avatar_url: None,
        },
    };
    let user: AuthenticatedUser = AuthenticatedUser::from_record(record);
    assert_eq!(user.id, "u1");
    let profile = to_api_user_profile(user);
    assert_eq!(profile.email, "");
    assert_eq!(profile.full_name.as_deref(), Some("Bo"));
}
