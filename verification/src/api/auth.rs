//! Authentication endpoint decisions.

use vstd::prelude::*;

use crate::domain::auth::AuthenticatedUser;
use crate::models::auth::UserProfile;

verus! {

/// The API profile of an authenticated user; a missing email is answered as
/// the empty string.
pub fn to_api_user_profile(user: AuthenticatedUser) -> (r: UserProfile)
    ensures
        r.id@ == user.id@,
        r.email@ == match user.email {
            Some(e) => e@,
            None => Seq::<char>::empty(),
        },
        r.full_name == user.full_name,
        r.avatar_url == user.avatar_url,
{
    UserProfile {
        id: user.id,
        email: match user.email {
            Some(e) => e,
            None => String::new(),
        },
        full_name: user.full_name,
        avatar_url: user.avatar_url,
    }
}

} // verus!
