//! A game's icon.

use vstd::prelude::*;

use crate::model::GameDetail;
use crate::traits::{fails_not_found, WebError};
use crate::util::media::{media_location, media_redirect};

verus! {

/// Where a game's icon is served: `NotFound("game_not_found")` for a missing
/// game, `NotFound("icon_not_found")` for a game without one.
pub fn get_game_icon(found: Option<GameDetail>) -> (r: Result<String, WebError>)
    ensures
        match found {
            None => fails_not_found(r, "game_not_found"@),
            Some(g) => match g.icon_hash {
                Some(h) => r matches Ok(loc) && loc@ == media_location(h@),
                None => fails_not_found(r, "icon_not_found"@),
            },
        },
{
    match found {
        None => Err(WebError::NotFound(String::from_str("game_not_found"))),
        Some(g) => media_redirect(g.icon_hash, "icon_not_found"),
    }
}

} // verus!
