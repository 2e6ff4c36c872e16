//! The challenges of a game.

pub mod challenge_id;

use vstd::prelude::*;

use crate::model::GameDetail;
use crate::traits::{fails_forbidden, WebError};
use crate::util::loader::game_ongoing;

verus! {

/// Query of a game's challenges.
pub struct GetGameChallengeRequest {
    pub game_id: Option<i64>,
    pub challenge_id: Option<i64>,
    pub category: Option<i32>,
}

/// A game's challenges are open only to members of a team that passed review,
/// and only during the competition window: `Forbidden("")` otherwise.
pub fn check_game_access(game: &GameDetail, in_game: bool, now: i64) -> (r: Result<(), WebError>)
    ensures
        in_game && game_ongoing(*game, now as int) ==> r is Ok,
        !(in_game && game_ongoing(*game, now as int)) ==> fails_forbidden(
            r,
            Seq::<char>::empty(),
        ),
{
    if !in_game || !(game.started_at <= now && now <= game.ended_at) {
        return Err(WebError::Forbidden(String::new()));
    }
    Ok(())
}

} // verus!
