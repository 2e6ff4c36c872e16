//! What handlers write to and read from the cache, and the model of the cache
//! (keys holding values until they expire) that laws over repeated requests
//! are stated on.

use vstd::prelude::*;

verus! {

/// A value written to the cache: a text, or a mark whose presence alone
/// counts (stored as the integer 1).
pub enum CacheValue {
    Text(String),
    Mark,
}

/// One write: `key` holds `value` for `ttl` seconds.
pub struct CacheWrite {
    pub key: String,
    pub value: CacheValue,
    pub ttl: u64,
}

/// How a handler reads a key: plainly, or taking the value out (the key is
/// deleted, whatever it held).
pub enum CacheRead {
    Get(String),
    Take(String),
}

/// A written value as the model holds it: the text, or nothing for a mark.
pub open spec fn value_view(v: CacheValue) -> Option<Seq<char>> {
    match v {
        CacheValue::Text(t) => Some(t@),
        CacheValue::Mark => None,
    }
}

/// A write as the model sees it: key, value, and lifetime in seconds.
pub open spec fn write_view(w: CacheWrite) -> (Seq<char>, Option<Seq<char>>, int) {
    (w.key@, value_view(w.value), w.ttl as int)
}

/// Writes in order, as the model sees them.
pub open spec fn writes_view(ws: Seq<CacheWrite>) -> Seq<(Seq<char>, Option<Seq<char>>, int)> {
    ws.map_values(|w: CacheWrite| write_view(w))
}

/// What a read at time `now` finds in the cache `c` (each key mapped to its
/// value and the time it expires): the value of a key that has not expired.
pub open spec fn cache_lookup(
    c: Map<Seq<char>, (Option<Seq<char>>, int)>,
    key: Seq<char>,
    now: int,
) -> Option<Option<Seq<char>>> {
    if c.contains_key(key) && now < c[key].1 {
        Some(c[key].0)
    } else {
        None
    }
}

/// The text a read finds, if it finds a text.
pub open spec fn found_text(found: Option<Option<Seq<char>>>) -> Option<Seq<char>> {
    match found {
        Some(Some(t)) => Some(t),
        _ => None,
    }
}

/// The cache after one write made at `now`.
pub open spec fn cache_after_write(
    c: Map<Seq<char>, (Option<Seq<char>>, int)>,
    w: (Seq<char>, Option<Seq<char>>, int),
    now: int,
) -> Map<Seq<char>, (Option<Seq<char>>, int)> {
    c.insert(w.0, (w.1, now + w.2))
}

/// The cache after writes made in order at `now`.
pub open spec fn cache_after_writes(
    c: Map<Seq<char>, (Option<Seq<char>>, int)>,
    ws: Seq<(Seq<char>, Option<Seq<char>>, int)>,
    now: int,
) -> Map<Seq<char>, (Option<Seq<char>>, int)>
    decreases ws.len(),
{
    if ws.len() == 0 {
        c
    } else {
        cache_after_write(cache_after_writes(c, ws.drop_last(), now), ws.last(), now)
    }
}

/// The cache after a key is taken out.
pub open spec fn cache_after_take(
    c: Map<Seq<char>, (Option<Seq<char>>, int)>,
    key: Seq<char>,
) -> Map<Seq<char>, (Option<Seq<char>>, int)> {
    c.remove(key)
}

} // verus!
