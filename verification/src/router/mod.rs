//! The rules behind the HTTP API's handlers, and the settings the top-level
//! router applies.

pub mod api;

use vstd::prelude::*;

verus! {

/// The liveness probe's body.
pub fn healthz() -> (body: &'static str)
    ensures
        body@ == "Ok"@,
{
    "Ok"
}

/// The session cookie the router sets.
pub struct SessionSettings {
    pub name: &'static str,
    pub secure: bool,
    pub http_only: bool,
    pub path: &'static str,
    pub same_site_strict: bool,
    /// Seconds of inactivity after which a session expires.
    pub inactivity_expiry: i64,
}

/// The session cookie: `cds.id`, HTTP only, for the whole site, same-site
/// strict, not restricted to HTTPS, expiring after two hours without requests.
pub fn session_settings() -> (s: SessionSettings)
    ensures
        s.name@ == "cds.id"@,
        !s.secure,
        s.http_only,
        s.path@ == "/"@,
        s.same_site_strict,
        s.inactivity_expiry == 7200,
{
    SessionSettings {
        name: "cds.id",
        secure: false,
        http_only: true,
        path: "/",
        same_site_strict: true,
        inactivity_expiry: 7200,
    }
}

/// The page served for any path the static front end lacks:
/// `{frontend}/index.html`.
pub fn frontend_fallback(frontend: &str) -> (p: String)
    ensures
        p@ == frontend@ + "/index.html"@,
{
    let mut p = String::from_str(frontend);
    p.append("/index.html");
    p
}

} // verus!
