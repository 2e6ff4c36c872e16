//! The caller's team in the envelope-style API, where only
//! administrators update a team.

pub mod avatar;
pub mod user;

use vstd::prelude::*;

use crate::model::{GameDetail, Group, TeamState, TeamView, User};
use crate::router::api::game::game_id::team::us::{check_team_preparing, member_count_allowed};
use crate::traits::{fails_bad_request, fails_forbidden, WebError};

verus! {

/// Body of a team update; a missing field is left as it is.
pub struct UpdateTeamRequest {
    pub name: Option<String>,
    pub email: Option<String>,
    pub slogan: Option<String>,
    pub description: Option<String>,
}

/// Only administrators update a team here: `Forbidden("")` otherwise.
pub fn check_team_admin(operator: &User) -> (r: Result<(), WebError>)
    ensures
        operator.group == Group::Admin ==> r is Ok,
        operator.group != Group::Admin ==> fails_forbidden(r, Seq::<char>::empty()),
{
    if operator.group != Group::Admin {
        return Err(WebError::Forbidden(String::new()));
    }
    Ok(())
}

/// A team declares itself ready here only while preparing
/// (`BadRequest("team_not_preparing")`) and with a member count within the
/// game's limits (`BadRequest("member_limit_not_satisfied")`); it then waits
/// for review: its state becomes `Pending`, in every game.
pub fn set_team_ready(game: &GameDetail, team: &TeamView, members: u64) -> (r: Result<TeamState, WebError>)
    ensures
        team.state != TeamState::Preparing ==> fails_bad_request(r, "team_not_preparing"@),
        team.state == TeamState::Preparing && !member_count_allowed(*game, members)
            ==> fails_bad_request(r, "member_limit_not_satisfied"@),
        team.state == TeamState::Preparing && member_count_allowed(*game, members) ==> r
            == Ok::<TeamState, WebError>(TeamState::Pending),
{
    check_team_preparing(team)?;
    if members < game.member_limit_min as u64 || members > game.member_limit_max as u64 {
        return Err(WebError::BadRequest(String::from_str("member_limit_not_satisfied")));
    }
    Ok(TeamState::Pending)
}

} // verus!
