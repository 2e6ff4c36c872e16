//! Another team of a game: its members, and joining it by invitation.

pub mod avatar;
pub mod token;
pub mod user;

use vstd::prelude::*;

use crate::model::{TeamState, TeamView};
use crate::traits::{fails_bad_request, WebError};

verus! {

/// Body of a request to join a team.
pub struct JoinTeamRequest {
    pub team_id: i64,
    pub token: String,
}

/// Joining needs a team that is still preparing
/// (`BadRequest("team_not_preparing")`), a user not yet in the game
/// (`BadRequest("user_already_in_game")`), and a body naming the same team
/// (`BadRequest("invalid_team")`); the invitation is checked next.
pub fn check_join(team: &TeamView, in_game: bool, body: &JoinTeamRequest) -> (r: Result<(), WebError>)
    ensures
        team.state != TeamState::Preparing ==> fails_bad_request(r, "team_not_preparing"@),
        team.state == TeamState::Preparing && in_game ==> fails_bad_request(
            r,
            "user_already_in_game"@,
        ),
        team.state == TeamState::Preparing && !in_game && body.team_id != team.id
            ==> fails_bad_request(r, "invalid_team"@),
        team.state == TeamState::Preparing && !in_game && body.team_id == team.id ==> r is Ok,
{
    if team.state != TeamState::Preparing {
        return Err(WebError::BadRequest(String::from_str("team_not_preparing")));
    }
    if in_game {
        return Err(WebError::BadRequest(String::from_str("user_already_in_game")));
    }
    if body.team_id != team.id {
        return Err(WebError::BadRequest(String::from_str("invalid_team")));
    }
    Ok(())
}

/// Whether an invitation token is accepted against what the team's key holds.
pub open spec fn invitation_accepted(stored: Option<Seq<char>>, token: Seq<char>) -> bool {
    stored == Some(token)
}

/// An invitation is accepted only while the team has a token
/// (`BadRequest("no_invite_token")`) and only when it is that token
/// (`BadRequest("invalid_invite_token")`).
pub fn check_invitation(stored: Option<String>, token: &String) -> (r: Result<(), WebError>)
    ensures
        (r is Ok) == invitation_accepted(match stored { Some(s) => Some(s@), None => None }, token@),
        stored is None ==> fails_bad_request(r, "no_invite_token"@),
        match stored {
            Some(s) => s@ != token@ ==> fails_bad_request(r, "invalid_invite_token"@),
            None => true,
        },
{
    match stored {
        None => Err(WebError::BadRequest(String::from_str("no_invite_token"))),
        Some(s) => {
            if s != *token {
                return Err(WebError::BadRequest(String::from_str("invalid_invite_token")));
            }
            Ok(())
        },
    }
}

/// The token a team's member creates is the one joining accepts: joining reads
/// it under the key creation wrote it to (the team's `team:{id}:invite`),
/// accepts it unchanged, refuses any other text, and refuses all once the
/// token is deleted or expired.
pub proof fn lemma_invitation_round_trip(token: Seq<char>, other: Seq<char>)
    ensures
        invitation_accepted(Some(token), token),
        other != token ==> !invitation_accepted(Some(token), other),
        !invitation_accepted(None, token),
{
}

} // verus!
