//! Listing games.

pub mod game_id;

use vstd::prelude::*;

use crate::router::api::submission::{min_u64, page_and_size};

verus! {

/// Query of the game listing.
pub struct GetGameRequest {
    pub id: Option<i64>,
    pub title: Option<String>,
    pub page: Option<u64>,
    pub size: Option<u64>,
    pub sorts: Option<String>,
}

/// The page and size of the game listing: at most 20 a page, 10 by default
/// (the listing shows enabled games only).
pub fn games_page(params: &GetGameRequest) -> (r: (u64, u64))
    ensures
        r.0 == (match params.page { Some(p) => p, None => 1 }),
        r.1 == min_u64(match params.size { Some(s) => s, None => 10 }, 20),
{
    page_and_size(params.page, params.size, 10, 20)
}

} // verus!
