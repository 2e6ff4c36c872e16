//! The caller's team avatar in the envelope-style API.

use vstd::prelude::*;

use crate::util::text::{decimal, format_id, i64_to_string};

verus! {

/// The storage directory of a team's avatar:
/// `games/{game_id}/teams/{team_id}/avatar`.
pub open spec fn team_avatar_dir(game_id: int, team_id: int) -> Seq<char> {
    "games/"@ + decimal(game_id) + "/teams/"@ + decimal(team_id) + "/avatar"@
}

/// Builds the storage directory of a team's avatar.
pub fn team_avatar_path(game_id: i64, team_id: i64) -> (p: String)
    ensures
        p@ == team_avatar_dir(game_id as int, team_id as int),
{
    let mut p = format_id("games/", game_id, "/teams/");
    let t = i64_to_string(team_id);
    p.append(t.as_str());
    p.append("/avatar");
    p
}

} // verus!
