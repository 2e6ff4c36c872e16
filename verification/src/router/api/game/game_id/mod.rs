//! One game: its details, scoreboard and live events.

pub mod challenge;
pub mod icon;
pub mod notice;
pub mod poster;
pub mod team;

use vstd::prelude::*;

use crate::model::GameDetail;
use crate::traits::{fails_not_found, WebError};

verus! {

/// A game is shown only while enabled: `NotFound("")` otherwise.
pub fn get_game(game: GameDetail) -> (r: Result<GameDetail, WebError>)
    ensures
        game.enabled ==> r == Ok::<GameDetail, WebError>(game),
        !game.enabled ==> fails_not_found(r, Seq::<char>::empty()),
{
    if !game.enabled {
        return Err(WebError::NotFound(String::new()));
    }
    Ok(game)
}

/// Query of the scoreboard.
pub struct GetGameScoreboardRequest {
    pub size: Option<u64>,
    pub page: Option<u64>,
}

/// Query of the live event stream.
pub struct GetEventsRequest {
    pub token: String,
}

} // verus!
