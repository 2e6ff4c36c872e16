//! The caller's notes on challenges.

use vstd::prelude::*;

use crate::model::{ChallengeDetail, Note};
use crate::traits::{fails_forbidden, WebError};

verus! {

/// Query of the caller's notes.
pub struct GetMyNoteRequest {
    pub challenge_id: Option<i64>,
    pub size: Option<u64>,
    pub page: Option<u64>,
    pub sorts: Option<String>,
}

/// Body of a note.
pub struct SaveMyNoteRequest {
    pub content: String,
    pub public: bool,
    pub challenge_id: i64,
}

/// Notes are written only on public challenges: `Forbidden("")` otherwise.
pub fn check_note_challenge(challenge: &ChallengeDetail) -> (r: Result<(), WebError>)
    ensures
        challenge.public ==> r is Ok,
        !challenge.public ==> fails_forbidden(r, Seq::<char>::empty()),
{
    if !challenge.public {
        return Err(WebError::Forbidden(String::new()));
    }
    Ok(())
}

/// How a note is saved.
pub enum NoteWrite {
    /// Rewrite the content and visibility of the caller's existing note.
    Update { id: i64, content: String, public: bool },
    /// Store a new note of the caller.
    Create { content: String, public: bool, challenge_id: i64, user_id: i64 },
}

/// A user keeps one note per challenge: the existing note is rewritten,
/// otherwise a new one is made.
pub fn save_my_note(existing: Option<Note>, body: SaveMyNoteRequest, operator_id: i64) -> (w: NoteWrite)
    ensures
        match existing {
            Some(n) => w == (NoteWrite::Update { id: n.id, content: body.content, public: body.public }),
            None => w == (NoteWrite::Create {
                content: body.content,
                public: body.public,
                challenge_id: body.challenge_id,
                user_id: operator_id,
            }),
        },
{
    match existing {
        Some(n) => NoteWrite::Update { id: n.id, content: body.content, public: body.public },
        None => NoteWrite::Create {
            content: body.content,
            public: body.public,
            challenge_id: body.challenge_id,
            user_id: operator_id,
        },
    }
}

} // verus!
