//! Another team's avatar.

use vstd::prelude::*;

use crate::model::TeamView;
use crate::traits::{fails_not_found, WebError};
use crate::util::media::{media_location, media_redirect};

verus! {

/// Where a team's avatar is served: `NotFound("team_not_found")` for a missing
/// team, `NotFound("avatar_not_found")` for a team without one.
pub fn get_team_avatar(found: Option<TeamView>) -> (r: Result<String, WebError>)
    ensures
        match found {
            None => fails_not_found(r, "team_not_found"@),
            Some(t) => match t.avatar_hash {
                Some(h) => r matches Ok(loc) && loc@ == media_location(h@),
                None => fails_not_found(r, "avatar_not_found"@),
            },
        },
{
    match found {
        None => Err(WebError::NotFound(String::from_str("team_not_found"))),
        Some(t) => media_redirect(t.avatar_hash, "avatar_not_found"),
    }
}

} // verus!
