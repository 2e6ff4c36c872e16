//! Another user's avatar.

use vstd::prelude::*;

use crate::model::User;
use crate::traits::{fails_not_found, WebError};
use crate::util::media::{media_location, media_redirect};

verus! {

/// Where a user's avatar is served: `NotFound("user_not_found")` for a missing
/// user, `NotFound("avatar_not_found")` for a user without one.
pub fn get_user_avatar(found: Option<User>) -> (r: Result<String, WebError>)
    ensures
        match found {
            None => fails_not_found(r, "user_not_found"@),
            Some(u) => match u.avatar_hash {
                Some(h) => r matches Ok(loc) && loc@ == media_location(h@),
                None => fails_not_found(r, "avatar_not_found"@),
            },
        },
{
    match found {
        None => Err(WebError::NotFound(String::from_str("user_not_found"))),
        Some(u) => media_redirect(u.avatar_hash, "avatar_not_found"),
    }
}

} // verus!
