//! One team in the envelope-style API.

use vstd::prelude::*;

use crate::model::TeamView;
use crate::traits::{fails_bad_request, fails_forbidden, WebError};
use crate::util::crypto::{argon2_verifies, check_password, phc_parses};
use crate::util::text::prefix_str;

verus! {

/// Body of a team update; a missing field is left as it is.
pub struct UpdateTeamRequest {
    pub id: Option<i64>,
    pub name: Option<String>,
    pub email: Option<String>,
    pub password: Option<String>,
    pub slogan: Option<String>,
    pub description: Option<String>,
}

/// Body of a request to join by the team's password.
pub struct JoinTeamRequest {
    pub team_id: i64,
    pub password: String,
}

/// The team the route names, if not deleted, or `BadRequest("team_not_found")`.
pub fn live_team(found: Option<TeamView>) -> (r: Result<TeamView, WebError>)
    ensures
        match found {
            Some(t) => r == Ok::<TeamView, WebError>(t),
            None => fails_bad_request(r, "team_not_found"@),
        },
{
    match found {
        Some(t) => Ok(t),
        None => Err(WebError::BadRequest(String::from_str("team_not_found"))),
    }
}

/// Only those who may modify a team update or delete it: `Forbidden("")`
/// otherwise.
pub fn check_modify(allowed: bool) -> (r: Result<(), WebError>)
    ensures
        allowed ==> r is Ok,
        !allowed ==> fails_forbidden(r, Seq::<char>::empty()),
{
    if !allowed {
        return Err(WebError::Forbidden(String::new()));
    }
    Ok(())
}

/// The name a deleted team is left with: `[DELETED]_{name}`.
pub fn deleted_team_name(team: &TeamView) -> (n: String)
    ensures
        n@ == "[DELETED]_"@ + team.name@,
{
    prefix_str("[DELETED]_", team.name.as_str())
}

/// Joining needs the team's password: `BadRequest("invalid_password")`
/// otherwise; `None` when the team's stored hash is not a PHC string.
pub fn check_team_password(password: String, hash: String) -> (r: Option<Result<(), WebError>>)
    ensures
        !phc_parses(hash@) ==> r is None,
        phc_parses(hash@) && argon2_verifies(password@, hash@) ==> r == Some(Ok::<(), WebError>(())),
        phc_parses(hash@) && !argon2_verifies(password@, hash@) ==> (r matches Some(x)
            && fails_bad_request(x, "invalid_password"@)),
{
    match check_password(password, hash) {
        None => None,
        Some(true) => Some(Ok(())),
        Some(false) => Some(Err(WebError::BadRequest(String::from_str("invalid_password")))),
    }
}

/// The last member deletes a team rather than leave it:
/// `BadRequest("delete_instead_of_leave")` when the team has exactly one.
pub fn check_quit(members: u64) -> (r: Result<(), WebError>)
    ensures
        members == 1 ==> fails_bad_request(r, "delete_instead_of_leave"@),
        members != 1 ==> r is Ok,
{
    if members == 1 {
        return Err(WebError::BadRequest(String::from_str("delete_instead_of_leave")));
    }
    Ok(())
}

} // verus!
