//! The rules of the handlers under `/api`.

pub mod game;
pub mod idp;
pub mod instance;
pub mod media;
pub mod note;
pub mod pod;
pub mod proxy;
pub mod submission;
pub mod team;
pub mod user;

use vstd::prelude::*;

verus! {

/// The welcome message of `GET /api/`.
pub fn index() -> (message: &'static str)
    ensures
        message@ == "This is the heart of CdsCTF!"@,
{
    "This is the heart of CdsCTF!"
}

} // verus!
