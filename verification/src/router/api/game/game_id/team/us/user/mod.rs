//! Leaving the caller's team.

use vstd::prelude::*;

use crate::traits::{fails_bad_request, WebError};

verus! {

/// A member leaves a team only when another member stays:
/// `BadRequest("team_has_no_other_member")` when the count the lookup gave is
/// at most one.
pub fn check_can_leave(count: u64) -> (r: Result<(), WebError>)
    ensures
        count <= 1 ==> fails_bad_request(r, "team_has_no_other_member"@),
        count > 1 ==> r is Ok,
{
    if count <= 1 {
        return Err(WebError::BadRequest(String::from_str("team_has_no_other_member")));
    }
    Ok(())
}

} // verus!
