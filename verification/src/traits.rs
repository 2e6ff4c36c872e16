//! The caller of a request, the empty JSON body, and [`WebError`]: the API's
//! failures and the reply each one is turned into.

use vstd::prelude::*;

use crate::model::User;

verus! {

/// Authenticated (or anonymous) subject of a request.
pub struct AuthPrincipal {
    pub operator: Option<User>,
    pub client_ip: String,
}

impl AuthPrincipal {
    /// The authenticated operator, or `Unauthorized("")` for an anonymous
    /// caller (every handler that needs a user begins with this).
    pub fn require_operator(self) -> (r: Result<User, WebError>)
        ensures
            match self.operator {
                Some(u) => r == Ok::<User, WebError>(u),
                None => fails_unauthorized(r, Seq::<char>::empty()),
            },
    {
        match self.operator {
            Some(u) => Ok(u),
            None => Err(WebError::Unauthorized(String::new())),
        }
    }
}

/// Empty JSON object (`{}`) for success responses that carry no fields.
pub struct EmptyJson {}

impl EmptyJson {
    /// The empty body.
    pub fn new() -> (r: EmptyJson) {
        EmptyJson {}
    }
}

/// The failures of the database layer that replies tell apart.
pub enum DbError {
    /// A record that was looked for is missing; holds its message.
    NotFound(String),
    /// Any other failure; holds its rendered text.
    Other(String),
}

/// The failures of the captcha layer that replies tell apart; each holds the
/// rendered text of the failure.
pub enum CaptchaError {
    Gone(String),
    MissingField(String),
    Other(String),
}

/// Application error, turned into a status and a JSON message for the client.
/// The variants that stand for a failure of another layer hold that failure's
/// rendered text.
pub enum WebError {
    NotFound(String),
    InternalServerError(String),
    BadRequest(String),
    Unauthorized(String),
    Forbidden(String),
    Conflict(String),
    TooManyRequests(String),
    UnprocessableEntity(String),
    Locked(String),
    TowerSessionsError(String),
    HttpError(String),
    MultipartError(String),
    DbError(DbError),
    CacheError(String),
    EnvError(String),
    EventError(String),
    CaptchaError(CaptchaError),
    IdpError(String),
    MediaError(String),
    QueueError(String),
    ClusterError(String),
    OtherError(String),
}

/// What a failed request is answered with: the status, the error kind that is
/// logged, and the message of the JSON body `{"msg": message}`.
pub struct ErrorReply {
    pub status: u16,
    pub kind: &'static str,
    pub message: String,
}

/// The status code of the reply to an error.
pub open spec fn error_status(e: WebError) -> u16 {
    match e {
        WebError::NotFound(_) => 404,
        WebError::InternalServerError(_) => 500,
        WebError::BadRequest(_) => 400,
        WebError::Unauthorized(_) => 401,
        WebError::Forbidden(_) => 403,
        WebError::Conflict(_) => 409,
        WebError::TooManyRequests(_) => 429,
        WebError::UnprocessableEntity(_) => 422,
        WebError::Locked(_) => 423,
        WebError::TowerSessionsError(_) => 500,
        WebError::HttpError(_) => 500,
        WebError::MultipartError(_) => 400,
        WebError::DbError(DbError::NotFound(_)) => 404,
        WebError::DbError(DbError::Other(_)) => 500,
        WebError::CacheError(_) => 500,
        WebError::EnvError(_) => 500,
        WebError::EventError(_) => 500,
        WebError::CaptchaError(CaptchaError::Gone(_)) => 410,
        WebError::CaptchaError(CaptchaError::MissingField(_)) => 400,
        WebError::CaptchaError(CaptchaError::Other(_)) => 500,
        WebError::IdpError(_) => 400,
        WebError::MediaError(_) => 500,
        WebError::QueueError(_) => 500,
        WebError::ClusterError(_) => 500,
        WebError::OtherError(_) => 500,
    }
}

/// The kind under which an error is logged.
pub open spec fn error_kind(e: WebError) -> Seq<char> {
    match e {
        WebError::NotFound(_) => "not_found"@,
        WebError::InternalServerError(_) => "internal_server_error"@,
        WebError::BadRequest(_) => "bad_request"@,
        WebError::Unauthorized(_) => "unauthorized"@,
        WebError::Forbidden(_) => "forbidden"@,
        WebError::Conflict(_) => "conflict"@,
        WebError::TooManyRequests(_) => "too_many_requests"@,
        WebError::UnprocessableEntity(_) => "unprocessable_entity"@,
        WebError::Locked(_) => "locked"@,
        WebError::TowerSessionsError(_) => "tower_sessions"@,
        WebError::HttpError(_) => "http"@,
        WebError::MultipartError(_) => "multipart"@,
        WebError::DbError(_) => "db"@,
        WebError::CacheError(_) => "cache"@,
        WebError::EnvError(_) => "env"@,
        WebError::EventError(_) => "event"@,
        WebError::CaptchaError(_) => "captcha"@,
        WebError::IdpError(_) => "idp"@,
        WebError::MediaError(_) => "media"@,
        WebError::QueueError(_) => "queue"@,
        WebError::ClusterError(_) => "cluster"@,
        WebError::OtherError(_) => "other"@,
    }
}

/// The message an error carries into the reply body.
pub open spec fn error_message(e: WebError) -> Seq<char> {
    match e {
        WebError::NotFound(m) => m@,
        WebError::InternalServerError(m) => m@,
        WebError::BadRequest(m) => m@,
        WebError::Unauthorized(m) => m@,
        WebError::Forbidden(m) => m@,
        WebError::Conflict(m) => m@,
        WebError::TooManyRequests(m) => m@,
        WebError::UnprocessableEntity(m) => m@,
        WebError::Locked(m) => m@,
        WebError::TowerSessionsError(m) => m@,
        WebError::HttpError(m) => m@,
        WebError::MultipartError(m) => m@,
        WebError::DbError(DbError::NotFound(m)) => m@,
        WebError::DbError(DbError::Other(m)) => m@,
        WebError::CacheError(m) => m@,
        WebError::EnvError(m) => m@,
        WebError::EventError(m) => m@,
        WebError::CaptchaError(CaptchaError::Gone(m)) => m@,
        WebError::CaptchaError(CaptchaError::MissingField(m)) => m@,
        WebError::CaptchaError(CaptchaError::Other(m)) => m@,
        WebError::IdpError(m) => m@,
        WebError::MediaError(m) => m@,
        WebError::QueueError(m) => m@,
        WebError::ClusterError(m) => m@,
        WebError::OtherError(m) => m@,
    }
}

/// `r` failed with `NotFound(msg)`.
pub open spec fn fails_not_found<T>(r: Result<T, WebError>, msg: Seq<char>) -> bool {
    r matches Err(WebError::NotFound(m)) && m@ == msg
}

/// `r` failed with `BadRequest(msg)`.
pub open spec fn fails_bad_request<T>(r: Result<T, WebError>, msg: Seq<char>) -> bool {
    r matches Err(WebError::BadRequest(m)) && m@ == msg
}

/// `r` failed with `Unauthorized(msg)`.
pub open spec fn fails_unauthorized<T>(r: Result<T, WebError>, msg: Seq<char>) -> bool {
    r matches Err(WebError::Unauthorized(m)) && m@ == msg
}

/// `r` failed with `Forbidden(msg)`.
pub open spec fn fails_forbidden<T>(r: Result<T, WebError>, msg: Seq<char>) -> bool {
    r matches Err(WebError::Forbidden(m)) && m@ == msg
}

/// `r` failed with `Conflict(msg)`.
pub open spec fn fails_conflict<T>(r: Result<T, WebError>, msg: Seq<char>) -> bool {
    r matches Err(WebError::Conflict(m)) && m@ == msg
}

/// `r` failed with `TooManyRequests(msg)`.
pub open spec fn fails_too_many<T>(r: Result<T, WebError>, msg: Seq<char>) -> bool {
    r matches Err(WebError::TooManyRequests(m)) && m@ == msg
}

/// `r` failed with `Locked(msg)`.
pub open spec fn fails_locked<T>(r: Result<T, WebError>, msg: Seq<char>) -> bool {
    r matches Err(WebError::Locked(m)) && m@ == msg
}

/// `r` failed with `InternalServerError(msg)`.
pub open spec fn fails_internal<T>(r: Result<T, WebError>, msg: Seq<char>) -> bool {
    r matches Err(WebError::InternalServerError(m)) && m@ == msg
}

/// Whether a status code is a server error (`500..=599`).
pub open spec fn is_server_error(status: u16) -> bool {
    500 <= status <= 599
}

/// JSON body of a failed request: `{"msg": message}`.
pub struct ErrorResponse {
    pub msg: Option<String>,
}

impl ErrorReply {
    /// The body of the reply, carrying its message.
    pub fn body(&self) -> (b: ErrorResponse)
        ensures
            b.msg matches Some(m) && m@ == self.message@,
    {
        ErrorResponse { msg: Some(self.message.clone()) }
    }

    /// Whether the reply reports a failure of the server (logged as an error)
    /// rather than a rejected request (logged as a warning).
    pub fn is_server_error(&self) -> (r: bool)
        ensures
            r == is_server_error(self.status),
    {
        500 <= self.status && self.status <= 599
    }
}

impl WebError {
    /// Converts the error into the reply sent to the client.
    pub fn into_response(self) -> (r: ErrorReply)
        ensures
            r.status == error_status(self),
            r.kind@ == error_kind(self),
            r.message@ == error_message(self),
    {
        proof {
            reveal_strlit("not_found");
            reveal_strlit("internal_server_error");
            reveal_strlit("bad_request");
            reveal_strlit("unauthorized");
            reveal_strlit("forbidden");
            reveal_strlit("conflict");
            reveal_strlit("too_many_requests");
            reveal_strlit("unprocessable_entity");
            reveal_strlit("locked");
            reveal_strlit("tower_sessions");
            reveal_strlit("http");
            reveal_strlit("multipart");
            reveal_strlit("db");
            reveal_strlit("cache");
            reveal_strlit("env");
            reveal_strlit("event");
            reveal_strlit("captcha");
            reveal_strlit("idp");
            reveal_strlit("media");
            reveal_strlit("queue");
            reveal_strlit("cluster");
            reveal_strlit("other");
        }
        let (status, kind, message): (u16, &'static str, String) = match self {
            WebError::NotFound(m) => (404, "not_found", m),
            WebError::InternalServerError(m) => (500, "internal_server_error", m),
            WebError::BadRequest(m) => (400, "bad_request", m),
            WebError::Unauthorized(m) => (401, "unauthorized", m),
            WebError::Forbidden(m) => (403, "forbidden", m),
            WebError::Conflict(m) => (409, "conflict", m),
            WebError::TooManyRequests(m) => (429, "too_many_requests", m),
            WebError::UnprocessableEntity(m) => (422, "unprocessable_entity", m),
            WebError::Locked(m) => (423, "locked", m),
            WebError::TowerSessionsError(m) => (500, "tower_sessions", m),
            WebError::HttpError(m) => (500, "http", m),
            WebError::MultipartError(m) => (400, "multipart", m),
            WebError::DbError(DbError::NotFound(m)) => (404, "db", m),
            WebError::DbError(DbError::Other(m)) => (500, "db", m),
            WebError::CacheError(m) => (500, "cache", m),
            WebError::EnvError(m) => (500, "env", m),
            WebError::EventError(m) => (500, "event", m),
            WebError::CaptchaError(CaptchaError::Gone(m)) => (410, "captcha", m),
            WebError::CaptchaError(CaptchaError::MissingField(m)) => (400, "captcha", m),
            WebError::CaptchaError(CaptchaError::Other(m)) => (500, "captcha", m),
            WebError::IdpError(m) => (400, "idp", m),
            WebError::MediaError(m) => (500, "media", m),
            WebError::QueueError(m) => (500, "queue", m),
            WebError::ClusterError(m) => (500, "cluster", m),
            WebError::OtherError(m) => (500, "other", m),
        };
        ErrorReply { status, kind, message }
    }
}

/// Every error is answered with a 4xx or 5xx status, and exactly the failures
/// of the server's own layers (not rejected requests) carry a 5xx status.
pub proof fn lemma_error_status_is_failure(e: WebError)
    ensures
        400 <= error_status(e) <= 599,
        is_server_error(error_status(e)) <==> (match e {
            WebError::InternalServerError(_) | WebError::TowerSessionsError(_)
            | WebError::HttpError(_) | WebError::CacheError(_) | WebError::EnvError(_)
            | WebError::EventError(_) | WebError::MediaError(_) | WebError::QueueError(_)
            | WebError::ClusterError(_) | WebError::OtherError(_) => true,
            WebError::DbError(DbError::Other(_)) => true,
            WebError::CaptchaError(CaptchaError::Other(_)) => true,
            _ => false,
        }),
{
}

} // verus!
