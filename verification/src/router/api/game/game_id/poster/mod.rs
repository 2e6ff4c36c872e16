//! A game's poster.

use vstd::prelude::*;

use crate::util::text::{decimal, prefix_id};

verus! {

/// The storage directory of a game's poster: `games/{game_id}` (the file is
/// `poster`).
pub open spec fn poster_dir(game_id: int) -> Seq<char> {
    "games/"@ + decimal(game_id)
}

/// Builds the storage directory of a game's poster.
pub fn game_poster_dir(game_id: i64) -> (p: String)
    ensures
        p@ == poster_dir(game_id as int),
{
    prefix_id("games/", game_id)
}

} // verus!
