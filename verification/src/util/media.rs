//! Storage paths of uploaded media.

use vstd::prelude::*;

use crate::traits::{fails_bad_request, fails_not_found, WebError};
use crate::util::text::{decimal, format_id, i64_to_string, prefix_str};

verus! {

/// The storage directory of a challenge's attachments:
/// `challenges/{challenge_id}/attachments`.
pub open spec fn challenge_attachment_path(challenge_id: int) -> Seq<char> {
    "challenges/"@ + decimal(challenge_id) + "/attachments"@
}

/// Builds the storage directory of a challenge's attachments.
pub fn build_challenge_attachment_path(challenge_id: i64) -> (path: String)
    ensures
        path@ == challenge_attachment_path(challenge_id as int),
{
    let mut path = String::from_str("challenges/");
    let id = i64_to_string(challenge_id);
    path.append(id.as_str());
    path.append("/attachments");
    path
}

} // verus!

verus! {

/// Where the media with a given hash is served: `/api/media?hash={hash}`.
pub open spec fn media_location(hash: Seq<char>) -> Seq<char> {
    "/api/media?hash="@ + hash
}

/// The redirect to a stored image, or `NotFound(missing)` when there is none.
pub fn media_redirect(hash: Option<String>, missing: &str) -> (r: Result<String, WebError>)
    ensures
        match hash {
            Some(h) => r matches Ok(loc) && loc@ == media_location(h@),
            None => fails_not_found(r, missing@),
        },
{
    match hash {
        Some(h) => Ok(prefix_str("/api/media?hash=", h.as_str())),
        None => Err(WebError::NotFound(String::from_str(missing))),
    }
}

} // verus!

verus! {

/// What `mime` parses a content type into: its type and subtype (in lower
/// case), or `None` where it fails.
pub uninterp spec fn mime_parts(text: Seq<char>) -> Option<(Seq<char>, Seq<char>)>;

/// Parses a content type with `str::parse::<mime::Mime>`; the contract claims
/// only that the result is the type and subtype that `mime` gives for this
/// text, or `None` when it refuses the text.
#[verifier::external_body]
fn parse_mime(text: &str) -> (r: Option<(String, String)>)
    ensures
        match r {
            Some(p) => mime_parts(text@) == Some((p.0@, p.1@)),
            None => mime_parts(text@) is None,
        },
{
    match text.parse::<mime::Mime>() {
        Ok(m) => Some((m.type_().as_str().to_string(), m.subtype().as_str().to_string())),
        Err(_) => None,
    }
}

/// An uploaded file is accepted when it has a content type
/// (`BadRequest("missing_content_type")` otherwise) that parses
/// (`BadRequest("invalid_mime_type")`) and whose type or subtype is `expected`
/// (`BadRequest("forbidden_file_type")`).
pub fn check_upload_type(content_type: Option<String>, expected: &str) -> (r: Result<(), WebError>)
    ensures
        content_type is None ==> fails_bad_request(r, "missing_content_type"@),
        match content_type {
            None => true,
            Some(ct) => match mime_parts(ct@) {
                None => fails_bad_request(r, "invalid_mime_type"@),
                Some(p) => if p.0 == expected@ || p.1 == expected@ {
                    r is Ok
                } else {
                    fails_bad_request(r, "forbidden_file_type"@)
                },
            },
        },
{
    let ct = match content_type {
        Some(ct) => ct,
        None => return Err(WebError::BadRequest(String::from_str("missing_content_type"))),
    };
    let parts = match parse_mime(ct.as_str()) {
        Some(p) => p,
        None => return Err(WebError::BadRequest(String::from_str("invalid_mime_type"))),
    };
    let want = String::from_str(expected);
    if parts.0 != want && parts.1 != want {
        return Err(WebError::BadRequest(String::from_str("forbidden_file_type")));
    }
    Ok(())
}

/// A file whose body could not be read (it exceeds the size limit) is refused
/// with `BadRequest("size_too_large")`.
pub fn check_upload_body(data: Option<Vec<u8>>) -> (r: Result<Vec<u8>, WebError>)
    ensures
        match data {
            Some(d) => r == Ok::<Vec<u8>, WebError>(d),
            None => fails_bad_request(r, "size_too_large"@),
        },
{
    match data {
        Some(d) => Ok(d),
        None => Err(WebError::BadRequest(String::from_str("size_too_large"))),
    }
}

/// A form without a file field is refused with `BadRequest("no_file")`.
pub fn no_file() -> (e: WebError)
    ensures
        fails_bad_request(Err::<(), WebError>(e), "no_file"@),
{
    WebError::BadRequest(String::from_str("no_file"))
}

/// The storage directory of a team's write-up, and the name it is served
/// under: `writeup-{game_id}-{team_id}.pdf`.
pub open spec fn writeup_name(game_id: int, team_id: int) -> Seq<char> {
    "writeup-"@ + decimal(game_id) + "-"@ + decimal(team_id) + ".pdf"@
}

/// The `Content-Disposition` of a served write-up: shown inline under
/// [`writeup_name`].
pub open spec fn writeup_disposition(game_id: int, team_id: int) -> Seq<char> {
    "inline; filename=\""@ + writeup_name(game_id, team_id) + "\""@
}

/// Builds the `Content-Disposition` of a served write-up.
pub fn writeup_content_disposition(game_id: i64, team_id: i64) -> (d: String)
    ensures
        d@ == writeup_disposition(game_id as int, team_id as int),
{
    let mut d = format_id("inline; filename=\"writeup-", game_id, "-");
    let t = i64_to_string(team_id);
    d.append(t.as_str());
    d.append(".pdf\"");
    proof {
        reveal_strlit("inline; filename=\"writeup-");
        reveal_strlit("inline; filename=\"");
        reveal_strlit("writeup-");
        reveal_strlit(".pdf\"");
        reveal_strlit(".pdf");
        reveal_strlit("\"");
    }
    assert(d@ =~= writeup_disposition(game_id as int, team_id as int));
    d
}

/// The write-up to serve: the first file of the team's write-up directory, or
/// `NotFound("")` when it is empty.
pub fn get_write_up(files: Vec<(String, u64)>) -> (r: Result<String, WebError>)
    ensures
        files@.len() > 0 ==> r == Ok::<String, WebError>(files@[0].0),
        files@.len() == 0 ==> fails_not_found(r, Seq::<char>::empty()),
{
    let mut files = files;
    if files.len() == 0 {
        return Err(WebError::NotFound(String::new()));
    }
    let (name, _size) = files.remove(0);
    Ok(name)
}

} // verus!
