//! The challenge instance (`Env`) that a cluster pod stands for, read from the
//! pod's labels, annotations and container states.

use vstd::prelude::*;

use crate::util::string_map::{lookup, StringMap};
use crate::util::text::{decimal, lemma_parse_i64_of_decimal, parse_i64, parse_i64_spec};

verus! {

/// What `uuid::Uuid::parse_str` gives for a text, as the 128-bit value of the
/// UUID, or `None` where it fails.
pub uninterp spec fn uuid_parse(text: Seq<char>) -> Option<u128>;

/// What `serde_json::from_str::<Vec<i32>>` gives for a text, or `None` where
/// it fails.
pub uninterp spec fn json_i32_list(text: Seq<char>) -> Option<Seq<i32>>;

/// Parses a UUID with `uuid::Uuid::parse_str`. The contract claims only that
/// the result is the function's result on this text (its 128-bit value), or
/// `None` when the text is refused.
#[verifier::external_body]
fn parse_uuid(text: &str) -> (r: Option<u128>)
    ensures
        r == uuid_parse(text@),
{
    match uuid::Uuid::parse_str(text) {
        Ok(u) => Some(u.as_u128()),
        Err(_) => None,
    }
}

/// The lower-case hexadecimal digit of `d` (`0 <= d < 16`).
pub open spec fn hex_digit(d: int) -> char {
    if d < 10 {
        ('0' as int + d) as char
    } else {
        ('a' as int + d - 10) as char
    }
}

/// The `k`-th hexadecimal digit of a 128-bit value, the most significant
/// first (`0 <= k < 32`).
pub open spec fn nibble(value: u128, k: int) -> int {
    (value as int / vstd::arithmetic::power2::pow2((4 * (31 - k)) as nat) as int) % 16
}

/// Which of the 32 digits stands at position `i` of the hyphenated form
/// (positions 8, 13, 18 and 23 hold hyphens).
pub open spec fn uuid_digit_at(i: int) -> int {
    if i < 8 {
        i
    } else if i < 13 {
        i - 1
    } else if i < 18 {
        i - 2
    } else if i < 23 {
        i - 3
    } else {
        i - 4
    }
}

/// The hyphenated form of a UUID: its 32 hexadecimal digits in lower case, in
/// groups of 8, 4, 4, 4 and 12 joined by hyphens.
pub open spec fn uuid_text(value: u128) -> Seq<char> {
    Seq::new(
        36,
        |i: int|
            if i == 8 || i == 13 || i == 18 || i == 23 {
                '-'
            } else {
                hex_digit(nibble(value, uuid_digit_at(i)))
            },
    )
}

/// Renders a UUID (given as its 128-bit value) with `uuid::Uuid`'s `Display`,
/// which the `uuid` documentation gives as the hyphenated form in lower case;
/// the contract claims that form.
#[verifier::external_body]
pub(crate) fn uuid_to_string(value: u128) -> (r: String)
    ensures
        r@ == uuid_text(value),
        r@.len() == 36,
{
    uuid::Uuid::from_u128(value).to_string()
}

/// Parses a JSON array of `i32` with `serde_json::from_str`. The contract
/// claims only that the result is the function's result on this text, or
/// `None` when the text is refused.
#[verifier::external_body]
fn parse_i32_list(text: &str) -> (r: Option<Vec<i32>>)
    ensures
        match r {
            Some(v) => json_i32_list(text@) == Some(v@),
            None => json_i32_list(text@) is None,
        },
{
    match serde_json::from_str::<Vec<i32>>(text) {
        Ok(v) => Some(v),
        Err(_) => None,
    }
}

/// The state of one container of a pod: whether it is waiting (with the
/// reason, if any), running, or terminated (with the reason, if any).
pub struct ContainerState {
    pub waiting: Option<Option<String>>,
    pub running: bool,
    pub terminated: Option<Option<String>>,
}

/// What of a pod the instance is read from.
pub struct PodInfo {
    pub labels: StringMap,
    pub annotations: StringMap,
    pub containers: Vec<ContainerState>,
    /// The pod's creation time, in seconds since the epoch.
    pub created_at: i64,
    pub node_name: String,
}

/// A challenge instance.
pub struct Env {
    pub id: String,
    pub user_id: i64,
    pub team_id: i64,
    pub game_id: i64,
    /// The challenge's UUID as a 128-bit number (0 when missing or malformed).
    pub challenge_id: u128,
    pub ports: Vec<i32>,
    pub public_entry: Option<String>,
    pub nats: Option<String>,
    pub status: String,
    pub reason: String,
    pub renew: i64,
    pub duration: i64,
    pub started_at: i64,
}

/// The value of a key, or the empty text.
pub open spec fn value_or_empty(es: Seq<(Seq<char>, Seq<char>)>, k: Seq<char>) -> Seq<char> {
    match lookup(es, k) {
        Some(v) => v,
        None => Seq::empty(),
    }
}

/// The number a key holds, or 0 when it is missing or not a number.
pub open spec fn number_or_zero(es: Seq<(Seq<char>, Seq<char>)>, k: Seq<char>) -> int {
    match parse_i64_spec(value_or_empty(es, k)) {
        Some(v) => v,
        None => 0,
    }
}

/// The status and reason after one more container, in order: a waiting
/// container sets `waiting` (and its reason when it has one), a running one
/// `running`, a terminated one `terminated` (and its reason when it has one).
pub open spec fn apply_container(c: ContainerState, acc: (Seq<char>, Seq<char>)) -> (
    Seq<char>,
    Seq<char>,
) {
    let a1 = match c.waiting {
        Some(r) => ("waiting"@, match r { Some(x) => x@, None => acc.1 }),
        None => acc,
    };
    let a2 = if c.running { ("running"@, a1.1) } else { a1 };
    match c.terminated {
        Some(r) => ("terminated"@, match r { Some(x) => x@, None => a2.1 }),
        None => a2,
    }
}

/// The status and reason of a pod: both empty, then each container in turn.
pub open spec fn pod_status(cs: Seq<ContainerState>) -> (Seq<char>, Seq<char>)
    decreases cs.len(),
{
    if cs.len() == 0 {
        (Seq::empty(), Seq::empty())
    } else {
        apply_container(cs.last(), pod_status(cs.drop_last()))
    }
}

/// A key's text is read as it is stored and as empty when missing; a key that
/// holds the decimal rendering of a number reads as that number, and a missing
/// key reads as 0.
pub proof fn lemma_label_reads(es: Seq<(Seq<char>, Seq<char>)>, k: Seq<char>, n: i64)
    ensures
        lookup(es, k) matches Some(v) ==> value_or_empty(es, k) == v,
        lookup(es, k) is None ==> value_or_empty(es, k) == Seq::<char>::empty(),
        lookup(es, k) == Some(decimal(n as int)) ==> number_or_zero(es, k) == n,
        lookup(es, k) is None ==> number_or_zero(es, k) == 0,
{
    lemma_parse_i64_of_decimal(n);
}

/// The status and reason of a pod are set by its last container: a pod
/// without containers has both empty; a last container that is terminated
/// makes the status `terminated`, else one that is running `running`, else one
/// that is waiting `waiting`; one in none of these states leaves the status of
/// the containers before it. The reason is that of the terminated state when
/// it gives one, else that of the waiting state when it gives one, else the
/// reason of the containers before.
pub proof fn lemma_pod_status_rules(cs: Seq<ContainerState>)
    ensures
        cs.len() == 0 ==> pod_status(cs) == (Seq::<char>::empty(), Seq::<char>::empty()),
        cs.len() > 0 ==> ({
            let c = cs.last();
            let before = pod_status(cs.drop_last());
            let now = pod_status(cs);
            &&& c.terminated is Some ==> now.0 == "terminated"@
            &&& c.terminated is None && c.running ==> now.0 == "running"@
            &&& c.terminated is None && !c.running && c.waiting is Some ==> now.0 == "waiting"@
            &&& c.terminated is None && !c.running && c.waiting is None ==> now.0 == before.0
            &&& c.terminated matches Some(Some(x)) ==> now.1 == x@
            &&& !(c.terminated matches Some(Some(_))) && (c.waiting matches Some(Some(x)))
                ==> now.1 == c.waiting->Some_0->Some_0@
            &&& !(c.terminated matches Some(Some(_))) && !(c.waiting matches Some(Some(_)))
                ==> now.1 == before.1
        }),
{
}

fn container_status(cs: &Vec<ContainerState>) -> (r: (String, String))
    ensures
        (r.0@, r.1@) == pod_status(cs@),
{
    proof {
        reveal_strlit("waiting");
        reveal_strlit("running");
        reveal_strlit("terminated");
    }
    let mut status = String::new();
    let mut reason = String::new();
    let mut i: usize = 0;
    while i < cs.len()
        invariant
            i <= cs@.len(),
            (status@, reason@) == pod_status(cs@.take(i as int)),
        decreases cs@.len() - i,
    {
        assert(cs@.take(i + 1).drop_last() =~= cs@.take(i as int));
        let c = &cs[i];
        match &c.waiting {
            Some(r) => {
                status = String::from_str("waiting");
                match r {
                    Some(x) => {
                        reason = x.clone();
                    },
                    None => {},
                }
            },
            None => {},
        }
        if c.running {
            status = String::from_str("running");
        }
        match &c.terminated {
            Some(r) => {
                status = String::from_str("terminated");
                match r {
                    Some(x) => {
                        reason = x.clone();
                    },
                    None => {},
                }
            },
            None => {},
        }
        i = i + 1;
    }
    assert(cs@.take(cs@.len() as int) =~= cs@);
    (status, reason)
}

impl Env {
    /// The instance a pod stands for: identifiers from the `cds/*` labels (a
    /// missing or malformed number reads as 0, a missing or malformed UUID as
    /// the nil UUID), ports, NATS address, renewal count and duration from the
    /// `cds/*` annotations (missing or malformed ports read as none), status
    /// and reason from the containers, the start from the pod's creation
    /// time, and the public entry that the configuration gives the pod's node.
    pub fn from(pod: PodInfo, public_entries: &StringMap) -> (env: Env)
        ensures
            env.id@ == value_or_empty(pod.labels.view(), "cds/env_id"@),
            env.user_id == number_or_zero(pod.labels.view(), "cds/user_id"@),
            env.team_id == number_or_zero(pod.labels.view(), "cds/team_id"@),
            env.game_id == number_or_zero(pod.labels.view(), "cds/game_id"@),
            env.challenge_id == (match uuid_parse(
                value_or_empty(pod.labels.view(), "cds/challenge_id"@),
            ) {
                Some(u) => u,
                None => 0,
            }),
            env.ports@ == (match json_i32_list(value_or_empty(pod.annotations.view(), "cds/ports"@)) {
                Some(v) => v,
                None => Seq::<i32>::empty(),
            }),
            match env.nats {
                Some(n) => lookup(pod.annotations.view(), "cds/nats"@) == Some(n@),
                None => lookup(pod.annotations.view(), "cds/nats"@) is None,
            },
            env.duration == number_or_zero(pod.annotations.view(), "cds/duration"@),
            env.renew == number_or_zero(pod.annotations.view(), "cds/renew"@),
            (env.status@, env.reason@) == pod_status(pod.containers@),
            env.started_at == pod.created_at,
            match env.public_entry {
                Some(e) => lookup(public_entries.view(), pod.node_name@) == Some(e@),
                None => lookup(public_entries.view(), pod.node_name@) is None,
            },
    {
        let id = pod.labels.get_or_empty("cds/env_id");
        let user_id = number_or_default(&pod.labels, "cds/user_id");
        let team_id = number_or_default(&pod.labels, "cds/team_id");
        let game_id = number_or_default(&pod.labels, "cds/game_id");
        let challenge_text = pod.labels.get_or_empty("cds/challenge_id");
        let challenge_id = match parse_uuid(challenge_text.as_str()) {
            Some(u) => u,
            None => 0,
        };
        let ports_text = pod.annotations.get_or_empty("cds/ports");
        let ports = match parse_i32_list(ports_text.as_str()) {
            Some(v) => v,
            None => Vec::new(),
        };
        let nats = pod.annotations.get("cds/nats");
        let duration = number_or_default(&pod.annotations, "cds/duration");
        let renew = number_or_default(&pod.annotations, "cds/renew");
        let (status, reason) = container_status(&pod.containers);
        let public_entry = public_entries.get(pod.node_name.as_str());
        Env {
            id,
            user_id,
            team_id,
            game_id,
            challenge_id,
            ports,
            public_entry,
            nats,
            status,
            reason,
            renew,
            duration,
            started_at: pod.created_at,
        }
    }
}

/// The number that key `key` holds, or 0 when it is missing or malformed.
pub fn number_or_default(m: &StringMap, key: &str) -> (r: i64)
    ensures
        r == number_or_zero(m.view(), key@),
{
    let text = m.get_or_empty(key);
    match parse_i64(text.as_str()) {
        Some(v) => v,
        None => 0,
    }
}

} // verus!
