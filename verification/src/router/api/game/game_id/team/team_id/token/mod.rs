//! A team's invitation token in the envelope-style API, open to the
//! team's members and administrators.

use vstd::prelude::*;

use crate::model::{Group, TeamView, User};
use crate::traits::{fails_bad_request, fails_forbidden, WebError};

verus! {

/// The team the route names, or `BadRequest("team_not_found")`.
pub fn token_team(found: Option<TeamView>) -> (r: Result<TeamView, WebError>)
    ensures
        match found {
            Some(t) => r == Ok::<TeamView, WebError>(t),
            None => fails_bad_request(r, "team_not_found"@),
        },
{
    match found {
        Some(t) => Ok(t),
        None => Err(WebError::BadRequest(String::from_str("team_not_found"))),
    }
}

/// Whether the caller is an administrator (then membership need not be asked
/// about).
pub fn is_admin(operator: &User) -> (r: bool)
    ensures
        r == (operator.group == Group::Admin),
{
    operator.group == Group::Admin
}

/// Only administrators and the team's members handle its token:
/// `Forbidden("")` otherwise.
pub fn check_token_access(admin: bool, in_team: bool) -> (r: Result<(), WebError>)
    ensures
        (admin || in_team) ==> r is Ok,
        !(admin || in_team) ==> fails_forbidden(r, Seq::<char>::empty()),
{
    if !admin && !in_team {
        return Err(WebError::Forbidden(String::new()));
    }
    Ok(())
}

} // verus!
