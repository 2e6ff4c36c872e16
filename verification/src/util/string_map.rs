//! String-to-string maps as Kubernetes labels and annotations hold them, and
//! the label selectors built from them.

use vstd::prelude::*;

verus! {

/// A map from strings to strings, kept as its entries in order; no key
/// occurs twice.
pub struct StringMap {
    entries: Vec<(String, String)>,
}

/// The entries of a map as pairs of character sequences.
pub open spec fn entries_view(es: Seq<(String, String)>) -> Seq<(Seq<char>, Seq<char>)> {
    es.map_values(|e: (String, String)| (e.0@, e.1@))
}

/// The value of the first entry with key `k`.
pub open spec fn lookup(es: Seq<(Seq<char>, Seq<char>)>, k: Seq<char>) -> Option<Seq<char>>
    decreases es.len(),
{
    if es.len() == 0 {
        None
    } else if es[0].0 == k {
        Some(es[0].1)
    } else {
        lookup(es.drop_first(), k)
    }
}

/// A key is looked up in joined entries first in the front part, then in the
/// rest.
pub proof fn lemma_lookup_append(a: Seq<(Seq<char>, Seq<char>)>, b: Seq<(Seq<char>, Seq<char>)>, k: Seq<char>)
    ensures
        lookup(a + b, k) == (match lookup(a, k) {
            Some(v) => Some(v),
            None => lookup(b, k),
        }),
    decreases a.len(),
{
    if a.len() == 0 {
        assert(a + b =~= b);
    } else {
        assert((a + b)[0] == a[0]);
        assert((a + b).drop_first() =~= a.drop_first() + b);
        lemma_lookup_append(a.drop_first(), b, k);
    }
}

/// A key is found in a single entry exactly when it is that entry's key.
pub proof fn lemma_lookup_single(key: Seq<char>, value: Seq<char>, k: Seq<char>)
    ensures
        lookup(seq![(key, value)], k) == (if key == k { Some(value) } else { None }),
{
    let es = seq![(key, value)];
    assert(es[0] == (key, value));
    if key != k {
        assert(es.drop_first() =~= Seq::<(Seq<char>, Seq<char>)>::empty());
        assert(lookup(Seq::<(Seq<char>, Seq<char>)>::empty(), k) is None);
    }
}

/// Whether no key occurs twice (as in a `BTreeMap`).
pub open spec fn unique_keys(es: Seq<(Seq<char>, Seq<char>)>) -> bool {
    forall|i: int, j: int| 0 <= i < j < es.len() ==> es[i].0 != es[j].0
}

impl StringMap {
    /// No key of the map occurs twice.
    #[verifier::type_invariant]
    spec fn keys_unique(self) -> bool {
        unique_keys(entries_view(self.entries@))
    }

    /// The entries of the map.
    pub closed spec fn view(&self) -> Seq<(Seq<char>, Seq<char>)> {
        entries_view(self.entries@)
    }

    /// A map with the given entries, whose keys are unique.
    pub fn new(entries: Vec<(String, String)>) -> (m: StringMap)
        requires
            unique_keys(entries_view(entries@)),
        ensures
            m.view() == entries_view(entries@),
    {
        StringMap { entries }
    }

    /// Whether no key of `entries` occurs twice (what [`StringMap::new`]
    /// asks of them).
    pub fn has_unique_keys(entries: &Vec<(String, String)>) -> (r: bool)
        ensures
            r == unique_keys(entries_view(entries@)),
    {
        let ghost ev = entries_view(entries@);
        let mut i: usize = 0;
        while i < entries.len()
            invariant
                i <= entries@.len(),
                ev == entries_view(entries@),
                forall|a: int, b: int| 0 <= a < b < i ==> ev[a].0 != ev[b].0,
            decreases entries@.len() - i,
        {
            let mut j: usize = 0;
            while j < i
                invariant
                    j <= i,
                    i < entries@.len(),
                    ev == entries_view(entries@),
                    forall|a: int, b: int| 0 <= a < b < i ==> ev[a].0 != ev[b].0,
                    forall|a: int| 0 <= a < j ==> ev[a].0 != ev[i as int].0,
                decreases i - j,
            {
                if entries[j].0 == entries[i].0 {
                    assert(ev[j as int].0 == ev[i as int].0);
                    return false;
                }
                j = j + 1;
            }
            i = i + 1;
        }
        true
    }

    /// The entries of the map, in order; no key occurs twice.
    pub fn entries(&self) -> (r: &Vec<(String, String)>)
        ensures
            entries_view(r@) == self.view(),
            unique_keys(self.view()),
    {
        proof {
            use_type_invariant(self);
        }
        &self.entries
    }

    /// The value of key `key`, if the map has one.
    pub fn get(&self, key: &str) -> (r: Option<String>)
        ensures
            match r {
                Some(v) => lookup(self.view(), key@) == Some(v@),
                None => lookup(self.view(), key@) is None,
            },
    {
        let k = String::from_str(key);
        let mut i: usize = 0;
        assert(self.view().subrange(0, self.view().len() as int) =~= self.view());
        while i < self.entries.len()
            invariant
                i <= self.entries@.len(),
                k@ == key@,
                lookup(self.view(), key@) == lookup(self.view().subrange(i as int, self.view().len() as int), key@),
            decreases self.entries@.len() - i,
        {
            let ghost rest = self.view().subrange(i as int, self.view().len() as int);
            assert(rest[0] == (self.entries@[i as int].0@, self.entries@[i as int].1@));
            if self.entries[i].0 == k {
                return Some(self.entries[i].1.clone());
            }
            assert(rest.drop_first() =~= self.view().subrange(i + 1, self.view().len() as int));
            i = i + 1;
        }
        None
    }

    /// The value of key `key`, or the empty string when the map has none.
    pub fn get_or_empty(&self, key: &str) -> (r: String)
        ensures
            r@ == match lookup(self.view(), key@) {
                Some(v) => v,
                None => Seq::<char>::empty(),
            },
    {
        match self.get(key) {
            Some(v) => v,
            None => String::new(),
        }
    }
}

/// In a map whose keys are unique, what a lookup gives is the value of the
/// entry with that key.
pub proof fn lemma_lookup_unique(es: Seq<(Seq<char>, Seq<char>)>, i: int)
    requires
        unique_keys(es),
        0 <= i < es.len(),
    ensures
        lookup(es, es[i].0) == Some(es[i].1),
    decreases es.len(),
{
    if i > 0 {
        let t = es.drop_first();
        assert(unique_keys(t)) by {
            assert forall|a: int, b: int| 0 <= a < b < t.len() implies t[a].0 != t[b].0 by {
                assert(t[a] == es[a + 1] && t[b] == es[b + 1]);
            }
        }
        assert(es[0].0 != es[i].0);
        lemma_lookup_unique(t, i - 1);
    }
}

/// The label selector `k1=v1,k2=v2,...` of the entries, in their order.
pub open spec fn selector(es: Seq<(Seq<char>, Seq<char>)>) -> Seq<char>
    decreases es.len(),
{
    if es.len() == 0 {
        Seq::empty()
    } else if es.len() == 1 {
        es[0].0 + "="@ + es[0].1
    } else {
        selector(es.drop_last()) + ","@ + es.last().0 + "="@ + es.last().1
    }
}

/// A selector writes each entry as `key=value`, the entries in order and
/// separated by commas: nothing for no entry, `key=value` for one, and one more
/// `,key=value` for each further entry.
pub proof fn lemma_selector_entries(es: Seq<(Seq<char>, Seq<char>)>, k: Seq<char>, v: Seq<char>)
    ensures
        selector(Seq::<(Seq<char>, Seq<char>)>::empty()) == Seq::<char>::empty(),
        selector(seq![(k, v)]) == k + "="@ + v,
        es.len() > 0 ==> selector(es.push((k, v))) == selector(es) + ","@ + k + "="@ + v,
{
    assert(es.push((k, v)).drop_last() =~= es);
}

/// Builds the label selector of the entries: each `key=value`, joined by
/// commas.
pub fn label_selector(entries: &Vec<(String, String)>) -> (s: String)
    ensures
        s@ == selector(entries_view(entries@)),
{
    let mut s = String::new();
    let mut i: usize = 0;
    while i < entries.len()
        invariant
            i <= entries@.len(),
            s@ == selector(entries_view(entries@).take(i as int)),
        decreases entries@.len() - i,
    {
        let ghost pre = entries_view(entries@).take(i as int);
        let ghost post = entries_view(entries@).take(i + 1);
        assert(post.drop_last() =~= pre);
        if i > 0 {
            s.append(",");
        }
        s.append(entries[i].0.as_str());
        s.append("=");
        s.append(entries[i].1.as_str());
        proof {
            if i == 0 {
                assert(s@ =~= post[0].0 + "="@ + post[0].1);
            } else {
                assert(post.last() == (entries@[i as int].0@, entries@[i as int].1@));
            }
        }
        i = i + 1;
    }
    assert(entries_view(entries@).take(entries@.len() as int) =~= entries_view(entries@));
    s
}

} // verus!
