//! The guards on games and the lookups every handler starts from: each turns
//! what the database gave into the record or the failure the client sees.

use vstd::prelude::*;

use crate::model::{ChallengeDetail, GameDetail, TeamView, User};
use crate::traits::{fails_forbidden, fails_locked, fails_not_found, WebError};

verus! {

/// Whether `now` lies in the competition window of a game, both ends included.
pub open spec fn game_ongoing(game: GameDetail, now: int) -> bool {
    game.started_at <= now <= game.ended_at
}

/// A game is under way from its start to its end, both included, and not
/// before its start or after its end.
pub proof fn lemma_game_ongoing(game: GameDetail, now: int)
    ensures
        now < game.started_at ==> !game_ongoing(game, now),
        now > game.ended_at ==> !game_ongoing(game, now),
        game.started_at <= now && now <= game.ended_at ==> game_ongoing(game, now),
{
}

/// Rejects player actions while a game is administratively paused.
pub fn ensure_game_not_paused(game: &GameDetail) -> (r: Result<(), WebError>)
    ensures
        !game.paused ==> r is Ok,
        game.paused ==> fails_locked(r, "game_paused"@),
{
    if game.paused {
        return Err(WebError::Locked(String::from_str("game_paused")));
    }
    Ok(())
}

/// Rejects actions outside the configured competition window.
pub fn ensure_game_ongoing(game: &GameDetail, now: i64) -> (r: Result<(), WebError>)
    ensures
        game_ongoing(*game, now as int) ==> r is Ok,
        !game_ongoing(*game, now as int) ==> fails_forbidden(r, "game_not_ongoing"@),
{
    if !(game.started_at <= now && now <= game.ended_at) {
        return Err(WebError::Forbidden(String::from_str("game_not_ongoing")));
    }
    Ok(())
}

/// The challenge that was looked up, or `NotFound("challenge_not_found")`.
pub fn prepare_challenge(found: Option<ChallengeDetail>) -> (r: Result<ChallengeDetail, WebError>)
    ensures
        match found {
            Some(c) => r == Ok::<ChallengeDetail, WebError>(c),
            None => fails_not_found(r, "challenge_not_found"@),
        },
{
    match found {
        Some(c) => Ok(c),
        None => Err(WebError::NotFound(String::from_str("challenge_not_found"))),
    }
}

/// The game that was looked up, or `NotFound("challenge_not_found")` (the
/// message the API has always given for a missing game).
pub fn prepare_game(found: Option<GameDetail>) -> (r: Result<GameDetail, WebError>)
    ensures
        match found {
            Some(g) => r == Ok::<GameDetail, WebError>(g),
            None => fails_not_found(r, "challenge_not_found"@),
        },
{
    match found {
        Some(g) => Ok(g),
        None => Err(WebError::NotFound(String::from_str("challenge_not_found"))),
    }
}

/// The game/challenge binding that was looked up, or
/// `NotFound("game_challenge_not_found")`.
pub fn prepare_game_challenge<T>(found: Option<T>) -> (r: Result<T, WebError>)
    ensures
        match found {
            Some(b) => r == Ok::<T, WebError>(b),
            None => fails_not_found(r, "game_challenge_not_found"@),
        },
{
    match found {
        Some(b) => Ok(b),
        None => Err(WebError::NotFound(String::from_str("game_challenge_not_found"))),
    }
}

/// The caller's team in a game: the first of the teams that the search by
/// game and member found, or `NotFound("team_not_found")` when it found none.
pub fn prepare_self_team(teams: Vec<TeamView>) -> (r: Result<TeamView, WebError>)
    ensures
        teams@.len() > 0 ==> r == Ok::<TeamView, WebError>(teams@[0]),
        teams@.len() == 0 ==> fails_not_found(r, "team_not_found"@),
{
    let mut teams = teams;
    if teams.len() == 0 {
        return Err(WebError::NotFound(String::from_str("team_not_found")));
    }
    Ok(teams.remove(0))
}

/// The team that was looked up by id within a game, or
/// `NotFound("team_not_found")`.
pub fn prepare_team(found: Option<TeamView>) -> (r: Result<TeamView, WebError>)
    ensures
        match found {
            Some(t) => r == Ok::<TeamView, WebError>(t),
            None => fails_not_found(r, "team_not_found"@),
        },
{
    match found {
        Some(t) => Ok(t),
        None => Err(WebError::NotFound(String::from_str("team_not_found"))),
    }
}

/// The user that was looked up, or `NotFound("user_not_found")`.
pub fn prepare_user(found: Option<User>) -> (r: Result<User, WebError>)
    ensures
        match found {
            Some(u) => r == Ok::<User, WebError>(u),
            None => fails_not_found(r, "user_not_found"@),
        },
{
    match found {
        Some(u) => Ok(u),
        None => Err(WebError::NotFound(String::from_str("user_not_found"))),
    }
}

} // verus!
