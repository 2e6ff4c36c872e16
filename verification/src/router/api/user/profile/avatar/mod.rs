//! The caller's avatar in the envelope-style API.

use vstd::prelude::*;

use crate::util::text::{decimal, format_id};

verus! {

/// The storage directory of a user's avatar: `users/{user_id}/avatar`.
pub open spec fn avatar_dir(user_id: int) -> Seq<char> {
    "users/"@ + decimal(user_id) + "/avatar"@
}

/// Builds the storage directory of a user's avatar.
pub fn user_avatar_dir(user_id: i64) -> (p: String)
    ensures
        p@ == avatar_dir(user_id as int),
{
    format_id("users/", user_id, "/avatar")
}

} // verus!
