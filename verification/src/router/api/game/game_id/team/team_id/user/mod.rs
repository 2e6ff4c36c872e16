//! A team's members in the envelope-style API.

use vstd::prelude::*;

use crate::model::TeamView;
use crate::traits::{fails_forbidden, WebError};
use crate::util::text::{decimal, format_id};

verus! {

/// Body of an administrator's addition of a member.
pub struct CreateTeamUserRequest {
    pub user_id: i64,
}

/// Body of a request to join by token.
pub struct JoinTeamRequest {
    pub token: String,
}

/// Only administrators add members: `Forbidden("")` otherwise.
pub fn check_create_team_user(admin: bool) -> (r: Result<(), WebError>)
    ensures
        admin ==> r is Ok,
        !admin ==> fails_forbidden(r, Seq::<char>::empty()),
{
    if !admin {
        return Err(WebError::Forbidden(String::new()));
    }
    Ok(())
}

/// Only administrators remove members, and not from a deleted team:
/// `Forbidden("")` otherwise.
pub fn check_delete_team_user(admin: bool, team: &TeamView) -> (r: Result<(), WebError>)
    ensures
        admin && team.deleted_at.is_none() ==> r is Ok,
        !(admin && team.deleted_at.is_none()) ==> fails_forbidden(r, Seq::<char>::empty()),
{
    if !admin || team.deleted_at.is_some() {
        return Err(WebError::Forbidden(String::new()));
    }
    Ok(())
}

/// The cache key this form of the API reads a join token from:
/// `team:{team_id}:token`.
pub open spec fn join_token_key_spec(team_id: int) -> Seq<char> {
    "team:"@ + decimal(team_id) + ":token"@
}

/// Builds the cache key of a join token.
pub fn join_token_key(team_id: i64) -> (k: String)
    ensures
        k@ == join_token_key_spec(team_id as int),
{
    format_id("team:", team_id, ":token")
}

} // verus!
