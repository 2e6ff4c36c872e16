//! The write-up of the caller's team.

use vstd::prelude::*;

use crate::model::GameDetail;
use crate::traits::{fails_bad_request, WebError};
use crate::util::loader::game_ongoing;
use crate::util::text::{decimal, format_id, i64_to_string};

verus! {

/// The storage directory of a team's write-up:
/// `games/{game_id}/teams/{team_id}/writeup`.
pub open spec fn writeup_dir(game_id: int, team_id: int) -> Seq<char> {
    "games/"@ + decimal(game_id) + "/teams/"@ + decimal(team_id) + "/writeup"@
}

/// Builds the storage directory of a team's write-up.
pub fn writeup_path(game_id: i64, team_id: i64) -> (p: String)
    ensures
        p@ == writeup_dir(game_id as int, team_id as int),
{
    let mut p = format_id("games/", game_id, "/teams/");
    let t = i64_to_string(team_id);
    p.append(t.as_str());
    p.append("/writeup");
    p
}

/// A write-up is uploaded only during the competition window:
/// `BadRequest("game_is_not_ongoing")` otherwise.
pub fn check_writeup_window(game: &GameDetail, now: i64) -> (r: Result<(), WebError>)
    ensures
        game_ongoing(*game, now as int) ==> r is Ok,
        !game_ongoing(*game, now as int) ==> fails_bad_request(r, "game_is_not_ongoing"@),
{
    if now > game.ended_at || now < game.started_at {
        return Err(WebError::BadRequest(String::from_str("game_is_not_ongoing")));
    }
    Ok(())
}

/// The file name of a stored write-up: its content hash and `.pdf`.
pub fn writeup_file_name(hash: &str) -> (n: String)
    ensures
        n@ == hash@ + ".pdf"@,
{
    let mut n = String::from_str(hash);
    n.append(".pdf");
    n
}

} // verus!
