//! One challenge of a game.

use vstd::prelude::*;

use crate::model::ChallengeDetail;
use crate::traits::{fails_not_found, WebError};

verus! {

/// The challenge behind a game's binding, or `NotFound("challenge_not_found")`.
pub fn get_challenge(found: Option<ChallengeDetail>) -> (r: Result<ChallengeDetail, WebError>)
    ensures
        match found {
            Some(c) => r == Ok::<ChallengeDetail, WebError>(c),
            None => fails_not_found(r, "challenge_not_found"@),
        },
{
    match found {
        Some(c) => Ok(c),
        None => Err(WebError::NotFound(String::from_str("challenge_not_found"))),
    }
}

} // verus!
