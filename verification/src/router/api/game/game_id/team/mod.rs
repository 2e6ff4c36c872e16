//! Creating a team in a game.

pub mod profile;
pub mod team_id;
pub mod us;

use vstd::prelude::*;

use crate::model::TeamState;
use crate::traits::{fails_bad_request, WebError};

verus! {

/// Body of a new team.
pub struct CreateTeamRequest {
    pub name: String,
    pub email: Option<String>,
    pub slogan: Option<String>,
    pub description: Option<String>,
}

/// A user takes part in a game through one team only:
/// `BadRequest("user_already_in_game")` for a user already in it.
pub fn check_not_in_game(in_game: bool) -> (r: Result<(), WebError>)
    ensures
        !in_game ==> r is Ok,
        in_game ==> fails_bad_request(r, "user_already_in_game"@),
{
    if in_game {
        return Err(WebError::BadRequest(String::from_str("user_already_in_game")));
    }
    Ok(())
}

/// A team to be stored.
pub struct NewTeam {
    pub name: String,
    pub email: Option<String>,
    pub slogan: Option<String>,
    pub game_id: i64,
    pub state: TeamState,
}

/// The team a creation stores: its name, address and slogan, in the game,
/// still preparing (its creator is added as its first member).
pub fn new_team(body: CreateTeamRequest, game_id: i64) -> (t: NewTeam)
    ensures
        t.name == body.name,
        t.email == body.email,
        t.slogan == body.slogan,
        t.game_id == game_id,
        t.state == TeamState::Preparing,
{
    NewTeam {
        name: body.name,
        email: body.email,
        slogan: body.slogan,
        game_id,
        state: TeamState::Preparing,
    }
}

} // verus!
