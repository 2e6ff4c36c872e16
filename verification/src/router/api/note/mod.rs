//! Listing the public notes on challenges.

use vstd::prelude::*;

verus! {

/// Query of the public notes.
pub struct ListNotesRequest {
    pub id: Option<i64>,
    pub user_id: Option<i64>,
    pub challenge_id: Option<i64>,
    pub size: Option<u64>,
    pub page: Option<u64>,
    pub sorts: Option<String>,
}

} // verus!
