//! The settings tree: an ordered mapping from names to loosely typed values,
//! from which recognized entries are taken out as they are consumed.

use crate::vocabulary::str_eq;
use vstd::prelude::*;

verus! {

/// One value of the settings tree.
#[derive(Debug, PartialEq)]
pub enum JsonValue {
    Object(JsonObject),
    Array(Vec<JsonValue>),
    Str(String),
    /// Any other scalar (a number, a boolean, null), kept as its JSON text.
    Other(String),
}

/// An object of the settings tree: its entries in their original order.
#[derive(Debug, PartialEq)]
pub struct JsonObject {
    pub entries: Vec<(String, JsonValue)>,
}

/// `i` is the first position of `s` whose name is `k`.
pub open spec fn is_first_index(s: Seq<(String, JsonValue)>, k: Seq<char>, i: int) -> bool {
    &&& 0 <= i < s.len()
    &&& s[i].0@ == k
    &&& forall|j: int| 0 <= j < i ==> s[j].0@ != k
}

/// Some entry of `s` is named `k`.
pub open spec fn has_key(s: Seq<(String, JsonValue)>, k: Seq<char>) -> bool {
    exists|i: int| 0 <= i < s.len() && s[i].0@ == k
}

/// The position of the first entry named `k`, or -1 where there is none.
pub open spec fn key_index(s: Seq<(String, JsonValue)>, k: Seq<char>) -> int {
    if has_key(s, k) {
        choose|i: int| is_first_index(s, k, i)
    } else {
        -1
    }
}

/// The value of the first entry named `k`.
pub open spec fn lookup(s: Seq<(String, JsonValue)>, k: Seq<char>) -> Option<JsonValue> {
    if has_key(s, k) {
        Some(s[key_index(s, k)].1)
    } else {
        None
    }
}

/// The entries left once the first entry named `k` is taken out.
pub open spec fn without(s: Seq<(String, JsonValue)>, k: Seq<char>) -> Seq<(String, JsonValue)> {
    if has_key(s, k) {
        s.remove(key_index(s, k))
    } else {
        s
    }
}

/// Where some entry is named `k`, a first one is.
pub proof fn lemma_first_index_exists(s: Seq<(String, JsonValue)>, k: Seq<char>, i: int)
    requires
        0 <= i < s.len(),
        s[i].0@ == k,
    ensures
        is_first_index(s, k, key_index(s, k)),
    decreases i,
{
    if exists|j: int| 0 <= j < i && s[j].0@ == k {
        let j = choose|j: int| 0 <= j < i && s[j].0@ == k;
        lemma_first_index_exists(s, k, j);
    } else {
        assert(is_first_index(s, k, i));
    }
}

/// The first index is the one that `key_index` picks.
pub proof fn lemma_key_index(s: Seq<(String, JsonValue)>, k: Seq<char>, i: int)
    requires
        is_first_index(s, k, i),
    ensures
        has_key(s, k),
        key_index(s, k) == i,
{
    assert(s[i].0@ == k);
    let c = choose|c: int| is_first_index(s, k, c);
    assert(is_first_index(s, k, c));
    if c < i {
        assert(s[c].0@ != k);
    } else if i < c {
        assert(s[i].0@ != k);
    }
}

/// Taking out one name leaves what another name looks up unchanged.
pub proof fn lemma_lookup_without(s: Seq<(String, JsonValue)>, k1: Seq<char>, k2: Seq<char>)
    requires
        k1 != k2,
    ensures
        lookup(without(s, k1), k2) == lookup(s, k2),
{
    if has_key(s, k1) {
        let w1 = choose|c: int| 0 <= c < s.len() && s[c].0@ == k1;
        lemma_first_index_exists(s, k1, w1);
        let i1 = key_index(s, k1);
        let t = s.remove(i1);
        if has_key(s, k2) {
            let w2 = choose|c: int| 0 <= c < s.len() && s[c].0@ == k2;
            lemma_first_index_exists(s, k2, w2);
            let c2 = key_index(s, k2);
            let j = if c2 < i1 { c2 } else { c2 - 1 };
            assert(t[j] == s[c2]);
            assert forall|m: int| 0 <= m < j implies t[m].0@ != k2 by {
                if m < i1 {
                    assert(t[m] == s[m]);
                } else {
                    assert(t[m] == s[m + 1]);
                }
            }
            lemma_key_index(t, k2, j);
        } else {
            assert forall|m: int| 0 <= m < t.len() implies t[m].0@ != k2 by {
                if m < i1 {
                    assert(t[m] == s[m]);
                } else {
                    assert(t[m] == s[m + 1]);
                }
            }
        }
    }
}

impl JsonObject {
    /// An object with no entries.
    pub fn new() -> (r: Self)
        ensures
            r.entries@ == Seq::<(String, JsonValue)>::empty(),
    {
        JsonObject { entries: Vec::new() }
    }

    /// Appends an entry at the end.
    pub fn push(&mut self, key: String, value: JsonValue)
        ensures
            final(self).entries@ == old(self).entries@.push((key, value)),
    {
        self.entries.push((key, value));
    }

    /// Takes out the first entry named `key` and hands back its value.
    pub fn remove(&mut self, key: &str) -> (r: Option<JsonValue>)
        ensures
            r == lookup(old(self).entries@, key@),
            final(self).entries@ == without(old(self).entries@, key@),
    {
        let n = self.entries.len();
        let mut i: usize = 0;
        while i < n
            invariant
                self.entries@ == old(self).entries@,
                n == self.entries.len(),
                i <= n,
                forall|j: int| 0 <= j < i ==> self.entries@[j].0@ != key@,
            decreases n - i,
        {
            if str_eq(self.entries[i].0.as_str(), key) {
                proof {
                    lemma_key_index(self.entries@, key@, i as int);
                }
                let (_name, value) = self.entries.remove(i);
                return Some(value);
            }
            i = i + 1;
        }
        None
    }
}

} // verus!
