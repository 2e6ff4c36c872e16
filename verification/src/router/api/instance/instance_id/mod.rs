//! Renewing, stopping and connecting to one instance.

use vstd::prelude::*;

use crate::traits::{fails_bad_request, fails_forbidden, WebError};
use crate::util::cluster::{number_or_default, number_or_zero, value_or_empty};
use crate::util::string_map::{lookup, StringMap};
use crate::util::text::{decimal, lemma_parse_i64_of_decimal, parse_i64, parse_i64_spec};

verus! {

/// Who an instance belongs to, as its labels say.
pub struct InstanceOwner {
    /// The instance id (`cds/instance_id`, empty when missing).
    pub id: String,
    /// The team (`cds/team_id`, 0 when missing or malformed).
    pub team_id: i64,
    /// The user (`cds/user_id`, 0 when missing or malformed).
    pub user_id: i64,
}

/// Reads who an instance belongs to from its labels.
pub fn instance_owner(labels: &StringMap) -> (o: InstanceOwner)
    ensures
        o.id@ == value_or_empty(labels.view(), "cds/instance_id"@),
        o.team_id == number_or_zero(labels.view(), "cds/team_id"@),
        o.user_id == number_or_zero(labels.view(), "cds/user_id"@),
{
    InstanceOwner {
        id: labels.get_or_empty("cds/instance_id"),
        team_id: number_or_default(labels, "cds/team_id"),
        user_id: number_or_default(labels, "cds/user_id"),
    }
}

/// Whether the caller is the instance's user (then the team need not be
/// asked about).
pub fn is_instance_user(operator_id: i64, owner: &InstanceOwner) -> (r: bool)
    ensures
        r == (operator_id == owner.user_id),
{
    operator_id == owner.user_id
}

/// Only the instance's user or a member of its team may act on it:
/// `Forbidden("")` otherwise.
pub fn check_instance_access(is_user: bool, in_team: bool) -> (r: Result<(), WebError>)
    ensures
        (is_user || in_team) ==> r is Ok,
        !(is_user || in_team) ==> fails_forbidden(r, Seq::<char>::empty()),
{
    if !(is_user || in_team) {
        return Err(WebError::Forbidden(String::new()));
    }
    Ok(())
}

/// The renewals an instance has had (`cds/renew`), read as 3 (none left)
/// when missing or malformed.
pub open spec fn renewals(annotations: Seq<(Seq<char>, Seq<char>)>) -> int {
    match parse_i64_spec(value_or_empty(annotations, "cds/renew"@)) {
        Some(v) => v,
        None => 3,
    }
}

/// An instance whose `cds/renew` annotation holds a number in decimal has had
/// that many renewals; one without the annotation counts as having none left
/// (3).
pub proof fn lemma_renewals_read(annotations: Seq<(Seq<char>, Seq<char>)>, n: i64)
    ensures
        lookup(annotations, "cds/renew"@) == Some(decimal(n as int)) ==> renewals(annotations) == n,
        lookup(annotations, "cds/renew"@) is None ==> renewals(annotations) == 3,
{
    lemma_parse_i64_of_decimal(n);
}

/// Reads the renewal count of an instance.
pub fn renew_count(annotations: &StringMap) -> (r: i64)
    ensures
        r == renewals(annotations.view()),
{
    let text = annotations.get_or_empty("cds/renew");
    match parse_i64(text.as_str()) {
        Some(v) => v,
        None => 3,
    }
}

/// Reads the lifetime of one period of an instance (`cds/duration`, 0 when
/// missing or malformed).
pub fn instance_duration(annotations: &StringMap) -> (r: i64)
    ensures
        r == number_or_zero(annotations.view(), "cds/duration"@),
{
    number_or_default(annotations, "cds/duration")
}

/// When the next period of an instance would start.
pub open spec fn next_start(started_at: int, renew: int, duration: int) -> int {
    started_at + (renew + 1) * duration
}

/// The end of an instance's period: one duration after its start, and one
/// duration later with every renewal made; a renewal is accepted exactly when
/// that end, `started_at + (renew + 1) * duration`, is at most
/// [`RENEWAL_WINDOW`] seconds away.
pub proof fn lemma_renewal_periods(started_at: int, renew: int, duration: int, now: int)
    ensures
        next_start(started_at, 0, duration) == started_at + duration,
        next_start(started_at, renew + 1, duration) == next_start(started_at, renew, duration)
            + duration,
        (next_start(started_at, renew, duration) - now <= RENEWAL_WINDOW) <==> (started_at + (renew
            + 1) * duration - now <= 600),
{
    assert((renew + 2) * duration == (renew + 1) * duration + duration) by (nonlinear_arith);
}

/// The renewal rule's arithmetic stays within `i64`.
pub open spec fn renewal_in_range(started_at: i64, renew: i64, duration: i64, now: i64) -> bool {
    &&& i64::MIN <= renew + 1 <= i64::MAX
    &&& i64::MIN <= (renew + 1) * duration <= i64::MAX
    &&& i64::MIN <= next_start(started_at as int, renew as int, duration as int) <= i64::MAX
    &&& i64::MIN <= next_start(started_at as int, renew as int, duration as int) - now <= i64::MAX
}

/// Whether the renewal rule's arithmetic stays within `i64` (it overflows, and
/// the request fails, otherwise).
pub fn renewal_fits(started_at: i64, renew: i64, duration: i64, now: i64) -> (r: bool)
    ensures
        r == renewal_in_range(started_at, renew, duration, now),
{
    let r1 = (renew as i128) + 1;
    if r1 > i64::MAX as i128 {
        return false;
    }
    let dur = duration as i128;
    assert(-0x8000_0000_0000_0000 * 0x8000_0000_0000_0000 <= r1 * dur <= 0x8000_0000_0000_0000
        * 0x8000_0000_0000_0000) by (nonlinear_arith)
        requires
            -0x8000_0000_0000_0000 <= r1 <= 0x8000_0000_0000_0000,
            -0x8000_0000_0000_0000 <= dur <= 0x8000_0000_0000_0000,
    ;
    let p = r1 * dur;
    if p < i64::MIN as i128 || p > i64::MAX as i128 {
        return false;
    }
    let n = (started_at as i128) + p;
    if n < i64::MIN as i128 || n > i64::MAX as i128 {
        return false;
    }
    let d = n - (now as i128);
    d >= i64::MIN as i128 && d <= i64::MAX as i128
}

/// Seconds before the end of the current period from which a renewal is
/// accepted.
pub const RENEWAL_WINDOW: i64 = 600;

/// An instance is renewed at most three times (`BadRequest("no_more_renewal")`
/// once `renew` is 3), and only within the last ten minutes before its next
/// period would start (`BadRequest("renewal_within_10_minutes")` earlier).
/// The time of the next period is computed only below three renewals, and
/// there it must stay within `i64` (the arithmetic panics otherwise).
pub fn check_renewal(started_at: i64, renew: i64, duration: i64, now: i64) -> (r: Result<(), WebError>)
    requires
        renew != 3 ==> renewal_in_range(started_at, renew, duration, now),
    ensures
        renew == 3 ==> fails_bad_request(r, "no_more_renewal"@),
        renew != 3 && next_start(started_at as int, renew as int, duration as int) - now
            > RENEWAL_WINDOW ==> fails_bad_request(r, "renewal_within_10_minutes"@),
        renew != 3 && next_start(started_at as int, renew as int, duration as int) - now
            <= RENEWAL_WINDOW ==> r is Ok,
{
    if renew == 3 {
        return Err(WebError::BadRequest(String::from_str("no_more_renewal")));
    }
    let next = started_at + (renew + 1) * duration;
    if next - now > RENEWAL_WINDOW {
        return Err(WebError::BadRequest(String::from_str("renewal_within_10_minutes")));
    }
    Ok(())
}

/// Query of the WebSocket link to an instance.
pub struct WsrxRequest {
    pub port: u32,
}

/// The pod port a WebSocket link forwards to: the requested port, truncated
/// to 16 bits.
pub fn wsrx_port(query: &WsrxRequest) -> (p: u16)
    ensures
        p == query.port as u16,
{
    query.port as u16
}

} // verus!
