//! Supabase-specific transport models.

use vstd::prelude::*;

use crate::domain::auth::AuthenticatedUser;

verus! {

/// Nested Supabase metadata.
#[derive(Debug, Clone)]
pub struct SupabaseUserMetadata {
    pub full_name: Option<String>,
    pub avatar_url: Option<String>,
}

impl Default for SupabaseUserMetadata {
    fn default() -> (r: SupabaseUserMetadata)
        ensures
            r.full_name is None,
            r.avatar_url is None,
    {
        SupabaseUserMetadata { full_name: None, avatar_url: None }
    }
}

/// Supabase user payload returned by `GET /auth/v1/user`.
#[derive(Debug, Clone)]
pub struct SupabaseUserRecord {
    pub id: String,
    pub email: Option<String>,
    pub user_metadata: SupabaseUserMetadata,
}

impl AuthenticatedUser {
    /// The domain user of a Supabase user record, field for field.
    pub fn from_record(record: SupabaseUserRecord) -> (r: AuthenticatedUser)
        ensures
            r.id == record.id,
            r.email == record.email,
            r.full_name == record.user_metadata.full_name,
            r.avatar_url == record.user_metadata.avatar_url,
    {
        AuthenticatedUser {
            id: record.id,
            email: record.email,
            full_name: record.user_metadata.full_name,
            avatar_url: record.user_metadata.avatar_url,
        }
    }
}

} // verus!
