//! A provider's avatar.

use vstd::prelude::*;

use crate::model::Idp;
use crate::traits::{fails_not_found, WebError};
use crate::util::media::{media_location, media_redirect};

verus! {

/// Where a provider's avatar is served: `NotFound("idp_not_found")` for a
/// missing provider, `NotFound("avatar_not_found")` for one without an avatar.
pub fn get_idp_avatar(found: Option<Idp>) -> (r: Result<String, WebError>)
    ensures
        match found {
            None => fails_not_found(r, "idp_not_found"@),
            Some(i) => match i.avatar_hash {
                Some(h) => r matches Ok(loc) && loc@ == media_location(h@),
                None => fails_not_found(r, "avatar_not_found"@),
            },
        },
{
    match found {
        None => Err(WebError::NotFound(String::from_str("idp_not_found"))),
        Some(i) => media_redirect(i.avatar_hash, "avatar_not_found"),
    }
}

} // verus!
