//! Another user's profile.

pub mod avatar;

use vstd::prelude::*;

use crate::model::User;
use crate::traits::{fails_not_found, WebError};

verus! {

/// The user looked up by id, or `NotFound("")`.
pub fn get_user(found: Option<User>) -> (r: Result<User, WebError>)
    ensures
        match found {
            Some(u) => r == Ok::<User, WebError>(u),
            None => fails_not_found(r, Seq::<char>::empty()),
        },
{
    match found {
        Some(u) => Ok(u),
        None => Err(WebError::NotFound(String::new())),
    }
}

} // verus!
