//! The caller's avatar.

use vstd::prelude::*;

use crate::util::text::{decimal, prefix_id};

verus! {

/// The storage directory of a user's avatar: `users/{user_id}` (the file is
/// `avatar`).
pub open spec fn user_avatar_dir(user_id: int) -> Seq<char> {
    "users/"@ + decimal(user_id)
}

/// Builds the storage directory of a user's avatar.
pub fn user_avatar_path(user_id: i64) -> (p: String)
    ensures
        p@ == user_avatar_dir(user_id as int),
{
    prefix_id("users/", user_id)
}

} // verus!
