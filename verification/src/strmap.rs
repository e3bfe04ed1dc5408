//! A small string-to-string map that keeps its entries in insertion order.

use vstd::prelude::*;

use crate::text::{chars_of, str_eq};

verus! {

/// Entries of a map as pairs of character sequences.
pub type Entries = Seq<(Seq<char>, Seq<char>)>;

/// The position of the first entry of `s` with key `k`, searching from `i`.
pub open spec fn key_index_from(s: Entries, k: Seq<char>, i: int) -> Option<int>
    decreases s.len() - i,
{
    if i < 0 || i >= s.len() {
        None
    } else if s[i].0 == k {
        Some(i)
    } else {
        key_index_from(s, k, i + 1)
    }
}

/// A position found by `key_index_from` is in range and holds the key.
pub proof fn lemma_key_index_from(s: Entries, k: Seq<char>, i: int)
    requires
        0 <= i,
    ensures
        key_index_from(s, k, i) matches Some(j) ==> i <= j < s.len() && s[j].0 == k,
        key_index_from(s, k, i) is None ==> forall|j: int| i <= j < s.len() ==> s[j].0 != k,
    decreases s.len() - i,
{
    if 0 <= i < s.len() && s[i].0 != k {
        lemma_key_index_from(s, k, i + 1);
    }
}

/// The position of the first entry of `s` with key `k`.
pub open spec fn key_index(s: Entries, k: Seq<char>) -> Option<int> {
    key_index_from(s, k, 0)
}

/// The value that `s` gives for `k`.
pub open spec fn lookup(s: Entries, k: Seq<char>) -> Option<Seq<char>> {
    match key_index(s, k) {
        Some(i) => Some(s[i].1),
        None => None,
    }
}

/// `s` after setting `k` to `v`: the value of an existing key is replaced in
/// place, a new key is appended.
pub open spec fn entries_insert(s: Entries, k: Seq<char>, v: Seq<char>) -> Entries {
    match key_index(s, k) {
        Some(i) => s.update(i, (k, v)),
        None => s.push((k, v)),
    }
}

/// Key searches agree on entry lists with the same keys in the same places.
proof fn lemma_same_keys(s: Entries, t: Entries, k: Seq<char>, i: int)
    requires
        s.len() == t.len(),
        forall|m: int| 0 <= m < s.len() ==> (#[trigger] s[m]).0 == t[m].0,
    ensures
        key_index_from(s, k, i) == key_index_from(t, k, i),
    decreases s.len() - i,
{
    if 0 <= i < s.len() {
        assert(s[i].0 == t[i].0);
        lemma_same_keys(s, t, k, i + 1);
    }
}

/// Appending an entry leaves earlier matches where they were, and is found
/// only when nothing earlier matched.
proof fn lemma_key_index_push(s: Entries, e: (Seq<char>, Seq<char>), k: Seq<char>, i: int)
    requires
        0 <= i <= s.len(),
    ensures
        key_index_from(s.push(e), k, i) == match key_index_from(s, k, i) {
            Some(j) => Some(j),
            None => if e.0 == k {
                Some(s.len() as int)
            } else {
                None
            },
        },
    decreases s.len() - i,
{
    let t = s.push(e);
    if i < s.len() {
        assert(t[i] == s[i]);
        lemma_key_index_push(s, e, k, i + 1);
    } else {
        assert(t[i] == e);
        assert(key_index_from(t, k, i + 1) is None);
    }
}

/// Reading a key back after setting it gives the value just set, and every
/// other key keeps its value.
pub proof fn law_lookup_after_insert(s: Entries, k: Seq<char>, v: Seq<char>, other: Seq<char>)
    ensures
        lookup(entries_insert(s, k, v), k) == Some(v),
        other != k ==> lookup(entries_insert(s, k, v), other) == lookup(s, other),
{
    lemma_key_index_from(s, k, 0);
    lemma_key_index_from(s, other, 0);
    let t = entries_insert(s, k, v);
    match key_index(s, k) {
        Some(i) => {
            assert(t == s.update(i, (k, v)));
            assert forall|m: int| 0 <= m < s.len() implies (#[trigger] s[m]).0 == t[m].0 by {
                if m == i {
                    assert(t[m] == (k, v));
                }
            }
            lemma_same_keys(s, t, k, 0);
            lemma_same_keys(s, t, other, 0);
            if other != k {
                if let Some(j) = key_index(s, other) {
                    assert(j != i);
                    assert(t[j] == s[j]);
                }
            }
        },
        None => {
            assert(t == s.push((k, v)));
            lemma_key_index_push(s, (k, v), k, 0);
            lemma_key_index_push(s, (k, v), other, 0);
            if let Some(j) = key_index(s, other) {
                assert(t[j] == s[j]);
            }
        },
    }
}

/// A string-to-string map; `insert` replaces the value of a key already
/// present, and iteration follows the order in which keys were first added.
#[derive(Debug)]
pub struct StringMap {
    entries: Vec<(String, String)>,
}

/// No key occurs twice.
pub open spec fn distinct_keys(s: Entries) -> bool {
    forall|i: int, j: int| 0 <= i < j < s.len() ==> (#[trigger] s[i]).0 != (#[trigger] s[j]).0
}

/// Setting a key keeps the keys distinct.
proof fn lemma_insert_keeps_distinct(s: Entries, k: Seq<char>, v: Seq<char>)
    requires
        distinct_keys(s),
    ensures
        distinct_keys(entries_insert(s, k, v)),
{
    lemma_key_index_from(s, k, 0);
    let t = entries_insert(s, k, v);
    assert forall|i: int, j: int| 0 <= i < j < t.len() implies (#[trigger] t[i]).0 != (
    #[trigger] t[j]).0 by {
        if i < s.len() && j < s.len() {
            assert(t[i].0 == s[i].0 && t[j].0 == s[j].0);
        } else {
            assert(j == s.len() && key_index(s, k) is None);
            assert(t[j].0 == k && t[i] == s[i]);
        }
    }
}

/// The views of string pairs.
pub open spec fn pair_views(v: Seq<(String, String)>) -> Entries {
    v.map_values(|e: (String, String)| (e.0@, e.1@))
}

impl StringMap {
    /// No key occurs twice.
    #[verifier::type_invariant]
    spec fn keys_distinct(&self) -> bool {
        distinct_keys(pair_views(self.entries@))
    }
}

impl View for StringMap {
    type V = Entries;

    closed spec fn view(&self) -> Entries {
        pair_views(self.entries@)
    }
}

impl Clone for StringMap {
    fn clone(&self) -> (r: Self)
        ensures
            r@ == self@,
            distinct_keys(r@),
    {
        proof {
            use_type_invariant(self);
        }
        let mut entries: Vec<(String, String)> = Vec::new();
        let mut i: usize = 0;
        while i < self.entries.len()
            invariant
                i <= self.entries.len(),
                pair_views(entries@) == self@.take(i as int),
            decreases self.entries.len() - i,
        {
            let k = self.entries[i].0.clone();
            let v = self.entries[i].1.clone();
            assert(k@ == self@[i as int].0 && v@ == self@[i as int].1);
            let ghost before = entries@;
            entries.push((k, v));
            assert(pair_views(entries@) =~= pair_views(before).push((k@, v@)));
            assert(pair_views(entries@) =~= self@.take(i + 1));
            i = i + 1;
        }
        assert(self@.take(i as int) =~= self@);
        StringMap { entries }
    }
}

impl StringMap {
    /// An empty map.
    pub fn new() -> (m: StringMap)
        ensures
            m@ == Seq::<(Seq<char>, Seq<char>)>::empty(),
            distinct_keys(m@),
    {
        let m = StringMap { entries: Vec::new() };
        assert(m@ =~= Seq::<(Seq<char>, Seq<char>)>::empty());
        m
    }

    /// The number of entries.
    pub fn len(&self) -> (n: usize)
        ensures
            n == self@.len(),
    {
        self.entries.len()
    }

    /// Whether the map has no entries.
    pub fn is_empty(&self) -> (b: bool)
        ensures
            b == (self@.len() == 0),
    {
        self.entries.len() == 0
    }

    /// The key of entry `i`.
    pub fn key_at(&self, i: usize) -> (k: &String)
        requires
            i < self@.len(),
        ensures
            k@ == self@[i as int].0,
    {
        &self.entries[i].0
    }

    /// The value of entry `i`.
    pub fn value_at(&self, i: usize) -> (v: &String)
        requires
            i < self@.len(),
        ensures
            v@ == self@[i as int].1,
    {
        &self.entries[i].1
    }

    /// The position of `key`, if present.
    fn index_of(&self, key: &str) -> (r: Option<usize>)
        ensures
            match r {
                Some(i) => i < self@.len() && key_index(self@, key@) == Some(i as int),
                None => key_index(self@, key@) is None,
            },
    {
        proof {
            lemma_key_index_from(self@, key@, 0);
        }
        let mut i: usize = 0;
        while i < self.entries.len()
            invariant
                i <= self.entries.len(),
                key_index(self@, key@) == key_index_from(self@, key@, i as int),
            decreases self.entries.len() - i,
        {
            if str_eq(self.entries[i].0.as_str(), key) {
                return Some(i);
            }
            i = i + 1;
        }
        None
    }

    /// The value stored for `key`.
    pub fn get(&self, key: &str) -> (r: Option<&String>)
        ensures
            match r {
                Some(v) => lookup(self@, key@) == Some(v@),
                None => lookup(self@, key@) is None,
            },
            distinct_keys(self@),
    {
        proof {
            use_type_invariant(self);
        }
        match self.index_of(key) {
            Some(i) => Some(&self.entries[i].1),
            None => None,
        }
    }

    /// Sets `key` to `value`.
    pub fn insert(&mut self, key: String, value: String)
        ensures
            final(self)@ == entries_insert(old(self)@, key@, value@),
            distinct_keys(final(self)@),
    {
        proof {
            use_type_invariant(&*self);
            lemma_insert_keeps_distinct(self@, key@, value@);
            lemma_key_index_from(self@, key@, 0);
        }
        let found = self.index_of(key.as_str());
        let ghost before = self.entries@;
        let ghost k = key@;
        let ghost v = value@;
        let mut entries: Vec<(String, String)> = Vec::new();
        assert(distinct_keys(pair_views(entries@))) by {
            assert(pair_views(entries@) =~= Seq::<(Seq<char>, Seq<char>)>::empty());
        }
        std::mem::swap(&mut entries, &mut self.entries);
        match found {
            Some(i) => {
                entries.set(i, (key, value));
                assert(pair_views(entries@) =~= pair_views(before).update(i as int, (k, v)));
            },
            None => {
                entries.push((key, value));
                assert(pair_views(entries@) =~= pair_views(before).push((k, v)));
            },
        }
        self.entries = entries;
    }
}

} // verus!
