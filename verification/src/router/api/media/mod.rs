//! Serving and uploading media.

use vstd::prelude::*;

use crate::traits::{fails_too_many, WebError};
use crate::util::text::{decimal, prefix_id};

verus! {

/// Query of a media file.
pub struct GetMediaRequest {
    pub hash: String,
}

/// The hash an upload was stored under.
pub struct UploadMediaResponse {
    pub hash: String,
}

/// The `Cache-Control` of served media: they never change under their hash.
pub fn media_cache_control() -> (c: &'static str)
    ensures
        c@ == "public, max-age=31536000, immutable"@,
{
    "public, max-age=31536000, immutable"
}

/// The cache key counting a user's uploads in ten minutes:
/// `media:upload:10m:{user_id}`.
pub open spec fn upload_key_10m(user_id: int) -> Seq<char> {
    "media:upload:10m:"@ + decimal(user_id)
}

/// The cache key counting a user's uploads in a day:
/// `media:upload:24h:{user_id}`.
pub open spec fn upload_key_24h(user_id: int) -> Seq<char> {
    "media:upload:24h:"@ + decimal(user_id)
}

/// Builds the ten-minute upload counter key.
pub fn upload_counter_key_10m(user_id: i64) -> (k: String)
    ensures
        k@ == upload_key_10m(user_id as int),
{
    prefix_id("media:upload:10m:", user_id)
}

/// Builds the daily upload counter key.
pub fn upload_counter_key_24h(user_id: i64) -> (k: String)
    ensures
        k@ == upload_key_24h(user_id as int),
{
    prefix_id("media:upload:24h:", user_id)
}

/// What an accepted upload does to a counter.
#[derive(PartialEq, Eq, Structural)]
pub enum CounterAction {
    /// Start the counter at 1 with its lifetime.
    Start,
    /// Add one to the running counter, keeping its lifetime.
    Increment,
}

/// The uploads a user may make in ten minutes.
pub const UPLOAD_LIMIT_10M: i32 = 10;

/// The uploads a user may make in a day.
pub const UPLOAD_LIMIT_24H: i32 = 50;

/// Seconds of the short counter's lifetime.
pub const UPLOAD_WINDOW_10M: u64 = 600;

/// Seconds of the daily counter's lifetime.
pub const UPLOAD_WINDOW_24H: u64 = 86400;

/// One upload counter: with none it starts at 1, at `limit` or above the
/// upload is refused with `TooManyRequests(refusal)`, below it counts one
/// more.
pub fn upload_counter_step(current: Option<i32>, limit: i32, refusal: &str) -> (r: Result<CounterAction, WebError>)
    ensures
        match current {
            None => r == Ok::<CounterAction, WebError>(CounterAction::Start),
            Some(l) => if l >= limit {
                fails_too_many(r, refusal@)
            } else {
                r == Ok::<CounterAction, WebError>(CounterAction::Increment)
            },
        },
{
    match current {
        None => Ok(CounterAction::Start),
        Some(l) => {
            if l >= limit {
                Err(WebError::TooManyRequests(String::from_str(refusal)))
            } else {
                Ok(CounterAction::Increment)
            }
        },
    }
}

/// The ten-minute counter of uploads (refused with
/// `TooManyRequests("upload_media_10m")` at 10).
pub fn upload_step_10m(current: Option<i32>) -> (r: Result<CounterAction, WebError>)
    ensures
        match current {
            None => r == Ok::<CounterAction, WebError>(CounterAction::Start),
            Some(l) => if l >= UPLOAD_LIMIT_10M {
                fails_too_many(r, "upload_media_10m"@)
            } else {
                r == Ok::<CounterAction, WebError>(CounterAction::Increment)
            },
        },
{
    upload_counter_step(current, UPLOAD_LIMIT_10M, "upload_media_10m")
}

/// The daily counter of uploads (refused with
/// `TooManyRequests("upload_media_24h")` at 50).
pub fn upload_step_24h(current: Option<i32>) -> (r: Result<CounterAction, WebError>)
    ensures
        match current {
            None => r == Ok::<CounterAction, WebError>(CounterAction::Start),
            Some(l) => if l >= UPLOAD_LIMIT_24H {
                fails_too_many(r, "upload_media_24h"@)
            } else {
                r == Ok::<CounterAction, WebError>(CounterAction::Increment)
            },
        },
{
    upload_counter_step(current, UPLOAD_LIMIT_24H, "upload_media_24h")
}

/// The counter after `n` accepted uploads in one window, starting from none,
/// or `None` once one was refused.
pub open spec fn uploads_after(n: nat, limit: i32) -> Option<Option<i32>>
    decreases n,
{
    if n == 0 {
        Some(None)
    } else {
        match uploads_after((n - 1) as nat, limit) {
            Some(None) => Some(Some(1i32)),
            Some(Some(l)) => if l >= limit { None } else { Some(Some((l + 1) as i32)) },
            None => None,
        }
    }
}

/// With a limit of `limit` (at least 1), the first `limit` uploads of a
/// window are accepted, each counting one more, and the next is refused: ten
/// in ten minutes, fifty in a day.
pub proof fn lemma_upload_window(limit: i32, n: nat)
    requires
        1 <= limit < 1000,
    ensures
        1 <= n <= limit ==> uploads_after(n, limit) == Some(Some(n as i32)),
        n == limit + 1 ==> uploads_after(n, limit) is None,
    decreases n,
{
    reveal_with_fuel(uploads_after, 2);
    if n >= 2 && n <= limit + 1 {
        lemma_upload_window(limit, (n - 1) as nat);
    }
}

} // verus!
