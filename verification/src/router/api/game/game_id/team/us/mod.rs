//! The caller's own team in a game.

pub mod token;
pub mod user;
pub mod writeup;

use vstd::prelude::*;

use crate::model::{GameDetail, TeamState, TeamView};
use crate::traits::{fails_bad_request, WebError};

verus! {

/// Body of a team update; a missing field is left as it is.
pub struct UpdateTeamRequest {
    pub name: Option<String>,
    pub email: Option<String>,
    pub slogan: Option<String>,
    pub description: Option<String>,
}

/// Membership changes only while a team is preparing:
/// `BadRequest("team_not_preparing")` otherwise.
pub fn check_team_preparing(team: &TeamView) -> (r: Result<(), WebError>)
    ensures
        team.state == TeamState::Preparing ==> r is Ok,
        team.state != TeamState::Preparing ==> fails_bad_request(r, "team_not_preparing"@),
{
    if team.state != TeamState::Preparing {
        return Err(WebError::BadRequest(String::from_str("team_not_preparing")));
    }
    Ok(())
}

/// Whether a member count lies within a game's limits (each limit read as a
/// `u64`).
pub open spec fn member_count_allowed(game: GameDetail, count: u64) -> bool {
    game.member_limit_min as u64 <= count <= game.member_limit_max as u64
}

/// The state a team enters when it declares itself ready: admitted at once in
/// a public game, waiting for review otherwise.
pub open spec fn ready_state(game: GameDetail) -> TeamState {
    if game.public { TeamState::Passed } else { TeamState::Pending }
}

/// A team declares itself ready only while preparing
/// (`BadRequest("team_not_preparing")`) and with a member count within the
/// game's limits (`BadRequest("member_limit_not_satisfied")`); it then enters
/// [`ready_state`].
pub fn set_team_ready(game: &GameDetail, team: &TeamView, members: u64) -> (r: Result<TeamState, WebError>)
    ensures
        team.state != TeamState::Preparing ==> fails_bad_request(r, "team_not_preparing"@),
        team.state == TeamState::Preparing && !member_count_allowed(*game, members)
            ==> fails_bad_request(r, "member_limit_not_satisfied"@),
        team.state == TeamState::Preparing && member_count_allowed(*game, members) ==> r
            == Ok::<TeamState, WebError>(ready_state(*game)),
{
    check_team_preparing(team)?;
    if members < game.member_limit_min as u64 || members > game.member_limit_max as u64 {
        return Err(WebError::BadRequest(String::from_str("member_limit_not_satisfied")));
    }
    Ok(if game.public { TeamState::Passed } else { TeamState::Pending })
}

/// A team leaves the preparing state only by readiness, and only into the
/// state its game admits: readiness never yields a banned or preparing team.
pub proof fn lemma_ready_state(game: GameDetail)
    ensures
        ready_state(game) == TeamState::Passed || ready_state(game) == TeamState::Pending,
        game.public <==> ready_state(game) == TeamState::Passed,
{
}

} // verus!
