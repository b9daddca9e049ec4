//! A string-keyed map held as an ordered list of entries, the key-ordered
//! storage used for attributes, links, relationships and metadata.

use vstd::prelude::*;
use crate::value::{chars_lt, str_lt, str_eq, lemma_chars_lt_trichotomy, lemma_chars_lt_trans};
use crate::codec::DeepClone;

verus! {

/// A map from strings to values, stored as a list of key/value entries that
/// the insertion operation keeps sorted by key.
#[derive(Debug, PartialEq)]
pub struct StringMap<V> {
    pub entries: Vec<(String, V)>,
}

impl<V: View> View for StringMap<V> {
    type V = Seq<(Seq<char>, V::V)>;

    open spec fn view(&self) -> Seq<(Seq<char>, V::V)> {
        Seq::new(self.entries@.len(), |i: int| (self.entries@[i].0@, self.entries@[i].1@))
    }
}

pub use crate::value::entries_sorted;

/// Insertion into an entry list ordered by key: a new key is placed before
/// the first key that is not below it, an existing key has its value replaced.
pub open spec fn entries_insert<T>(s: Seq<(Seq<char>, T)>, k: Seq<char>, x: T) -> Seq<
    (Seq<char>, T),
>
    decreases s.len(),
{
    if s.len() == 0 {
        seq![(k, x)]
    } else if chars_lt(k, s[0].0) {
        seq![(k, x)] + s
    } else if k == s[0].0 {
        seq![(k, x)] + s.skip(1)
    } else {
        seq![s[0]] + entries_insert(s.skip(1), k, x)
    }
}

/// The value stored under a key, if any: the first entry with that key.
pub open spec fn entries_get<T>(s: Seq<(Seq<char>, T)>, k: Seq<char>) -> Option<T>
    decreases s.len(),
{
    if s.len() == 0 {
        None
    } else if s[0].0 == k {
        Some(s[0].1)
    } else {
        entries_get(s.skip(1), k)
    }
}

/// Where the keys below the insertion point are all under `k`, the inserted
/// list is the old list with `(k, x)` placed (or replacing) at that point.
pub proof fn lemma_entries_insert_split<T>(s: Seq<(Seq<char>, T)>, k: Seq<char>, x: T, i: int)
    requires
        0 <= i <= s.len(),
        forall|j: int| 0 <= j < i ==> chars_lt(s[j].0, k),
    ensures
        i < s.len() && s[i].0 == k ==> entries_insert(s, k, x) == s.take(i) + seq![(k, x)]
            + s.skip(i + 1),
        i < s.len() && s[i].0 != k && !chars_lt(s[i].0, k) ==> entries_insert(s, k, x) == s.take(i)
            + seq![(k, x)] + s.skip(i),
        i == s.len() ==> entries_insert(s, k, x) == s.take(i) + seq![(k, x)] + s.skip(i),
    decreases i,
{
    if i == 0 {
        if s.len() == 0 {
            assert(entries_insert(s, k, x) =~= s.take(0) + seq![(k, x)] + s.skip(0));
        } else if s[0].0 == k {
            lemma_chars_lt_trichotomy(k, s[0].0);
            assert(!chars_lt(k, s[0].0));
            assert(entries_insert(s, k, x) =~= s.take(0) + seq![(k, x)] + s.skip(1));
        } else if !chars_lt(s[0].0, k) {
            lemma_chars_lt_trichotomy(k, s[0].0);
            assert(chars_lt(k, s[0].0));
            assert(entries_insert(s, k, x) =~= s.take(0) + seq![(k, x)] + s.skip(0));
        }
    } else {
        lemma_chars_lt_trichotomy(k, s[0].0);
        assert(chars_lt(s[0].0, k));
        assert(!chars_lt(k, s[0].0) && k != s[0].0);
        let t = s.skip(1);
        assert(forall|j: int| 0 <= j < i - 1 ==> t[j] == s[j + 1]);
        lemma_entries_insert_split(t, k, x, i - 1);
        assert(entries_insert(s, k, x) == seq![s[0]] + entries_insert(t, k, x));
        assert(s.take(i) =~= seq![s[0]] + t.take(i - 1));
        if i < s.len() && s[i].0 == k {
            assert(t[i - 1].0 == k);
            assert(entries_insert(t, k, x) == t.take(i - 1) + seq![(k, x)] + t.skip(i));
            assert(t.skip(i) =~= s.skip(i + 1));
            assert(entries_insert(s, k, x) =~= s.take(i) + seq![(k, x)] + s.skip(i + 1));
        } else if i < s.len() && !chars_lt(s[i].0, k) {
            assert(t[i - 1].0 == s[i].0);
            assert(entries_insert(t, k, x) == t.take(i - 1) + seq![(k, x)] + t.skip(i - 1));
            assert(t.skip(i - 1) =~= s.skip(i));
            assert(entries_insert(s, k, x) =~= s.take(i) + seq![(k, x)] + s.skip(i));
        } else if i == s.len() {
            assert(i - 1 == t.len());
            assert(entries_insert(t, k, x) == t.take(i - 1) + seq![(k, x)] + t.skip(i - 1));
            assert(t.skip(i - 1) =~= s.skip(i));
            assert(entries_insert(s, k, x) =~= s.take(i) + seq![(k, x)] + s.skip(i));
        }
    }
}

/// Every entry of an inserted list is the new pair or one of the old ones.
pub proof fn lemma_entries_insert_elems<T>(s: Seq<(Seq<char>, T)>, k: Seq<char>, x: T)
    ensures
        forall|j: int|
            0 <= j < entries_insert(s, k, x).len() ==> entries_insert(s, k, x)[j] == (k, x)
                || s.contains(#[trigger] entries_insert(s, k, x)[j]),
    decreases s.len(),
{
    let r = entries_insert(s, k, x);
    if s.len() == 0 {
    } else if chars_lt(k, s[0].0) {
        assert forall|j: int| 0 <= j < r.len() implies r[j] == (k, x) || s.contains(r[j]) by {
            if j > 0 {
                assert(r[j] == s[j - 1]);
            }
        }
    } else if k == s[0].0 {
        assert forall|j: int| 0 <= j < r.len() implies r[j] == (k, x) || s.contains(r[j]) by {
            if j > 0 {
                assert(r[j] == s[j]);
            }
        }
    } else {
        let t = s.skip(1);
        lemma_entries_insert_elems(t, k, x);
        assert forall|j: int| 0 <= j < r.len() implies r[j] == (k, x) || s.contains(r[j]) by {
            if j == 0 {
                assert(r[0] == s[0]);
                assert(s.contains(s[0]));
            } else {
                assert(r[j] == entries_insert(t, k, x)[j - 1]);
                if entries_insert(t, k, x)[j - 1] == (k, x) {
                } else {
                    let i = choose|i: int|
                        0 <= i < t.len() && t[i] == entries_insert(t, k, x)[j - 1];
                    assert(s[i + 1] == t[i]);
                    assert(s.contains(s[i + 1]));
                }
            }
        }
    }
}

/// Inserting into a key-ordered list keeps it key-ordered.
pub proof fn lemma_entries_insert_sorted<T>(s: Seq<(Seq<char>, T)>, k: Seq<char>, x: T)
    requires
        entries_sorted(s),
    ensures
        entries_sorted(entries_insert(s, k, x)),
    decreases s.len(),
{
    let r = entries_insert(s, k, x);
    if s.len() == 0 {
    } else if chars_lt(k, s[0].0) {
        assert forall|i: int, j: int| 0 <= i < j < r.len() implies chars_lt(r[i].0, r[j].0) by {
            if i == 0 {
                assert(r[j] == s[j - 1]);
                if j > 1 {
                    lemma_chars_lt_trans(k, s[0].0, s[j - 1].0);
                }
            } else {
                assert(r[i] == s[i - 1] && r[j] == s[j - 1]);
            }
        }
    } else if k == s[0].0 {
        assert forall|i: int, j: int| 0 <= i < j < r.len() implies chars_lt(r[i].0, r[j].0) by {
            if i == 0 {
                assert(r[j] == s[j]);
            } else {
                assert(r[i] == s[i] && r[j] == s[j]);
            }
        }
    } else {
        lemma_chars_lt_trichotomy(k, s[0].0);
        assert(chars_lt(s[0].0, k));
        let t = s.skip(1);
        assert(forall|i: int| 0 <= i < t.len() ==> t[i] == s[i + 1]);
        assert(entries_sorted(t));
        lemma_entries_insert_sorted(t, k, x);
        lemma_entries_insert_elems(t, k, x);
        let rt = entries_insert(t, k, x);
        assert forall|i: int, j: int| 0 <= i < j < r.len() implies chars_lt(r[i].0, r[j].0) by {
            if i == 0 {
                assert(r[j] == rt[j - 1]);
                if rt[j - 1] == (k, x) {
                } else {
                    let m = choose|m: int| 0 <= m < t.len() && t[m] == rt[j - 1];
                    assert(chars_lt(s[0].0, s[m + 1].0));
                }
            } else {
                assert(r[i] == rt[i - 1] && r[j] == rt[j - 1]);
            }
        }
    }
}

impl<V: View> StringMap<V> {
    /// An empty map.
    pub fn new() -> (r: Self)
        ensures
            r@ == Seq::<(Seq<char>, V::V)>::empty(),
    {
        let r = StringMap { entries: Vec::new() };
        proof {
            assert(r@ =~= Seq::<(Seq<char>, V::V)>::empty());
        }
        r
    }

    /// The number of entries.
    pub fn len(&self) -> (n: usize)
        ensures
            n == self@.len(),
    {
        self.entries.len()
    }

    /// Whether the map has no entries.
    pub fn is_empty(&self) -> (r: bool)
        ensures
            r == (self@.len() == 0),
    {
        self.entries.len() == 0
    }

    /// The index of the first key not below `key`, scanning from the left.
    fn lower_bound(&self, key: &str) -> (idx: usize)
        ensures
            idx <= self@.len(),
            forall|j: int| 0 <= j < idx ==> chars_lt(self@[j].0, key@),
            idx < self@.len() ==> !chars_lt(self@[idx as int].0, key@),
    {
        let n = self.entries.len();
        let mut idx: usize = 0;
        while idx < n
            invariant
                idx <= n,
                n == self.entries@.len(),
                forall|j: int| 0 <= j < idx ==> chars_lt(self@[j].0, key@),
            decreases n - idx,
        {
            if !str_lt(self.entries[idx].0.as_str(), key) {
                return idx;
            }
            idx = idx + 1;
        }
        idx
    }

    /// Puts `value` under `key`, replacing any value already there; a new key
    /// is placed at its ordered position.
    pub fn insert(&mut self, key: String, value: V)
        ensures
            final(self)@ == entries_insert(old(self)@, key@, value@),
    {
        let idx = self.lower_bound(key.as_str());
        let ghost s = self@;
        let ghost iv = idx as int;
        if idx < self.entries.len() && str_eq(self.entries[idx].0.as_str(), key.as_str()) {
            proof {
                lemma_entries_insert_split(s, key@, value@, iv);
            }
            self.entries.remove(idx);
            self.entries.insert(idx, (key, value));
            proof {
                assert(self@ =~= s.take(iv) + seq![(key@, value@)] + s.skip(iv + 1));
            }
        } else {
            proof {
                lemma_entries_insert_split(s, key@, value@, iv);
            }
            self.entries.insert(idx, (key, value));
            proof {
                assert(self@ =~= s.take(iv) + seq![(key@, value@)] + s.skip(iv));
            }
        }
    }

    /// The value under `key`, if the map holds one.
    pub fn get(&self, key: &str) -> (r: Option<&V>)
        ensures
            match r {
                Some(v) => entries_get(self@, key@) == Some(v@),
                None => entries_get(self@, key@) is None,
            },
    {
        let n = self.entries.len();
        let mut i: usize = 0;
        proof {
            assert(self@.skip(0) =~= self@);
        }
        while i < n
            invariant
                i <= n,
                n == self.entries@.len(),
                entries_get(self@, key@) == entries_get(self@.skip(i as int), key@),
            decreases n - i,
        {
            proof {
                assert(self@.skip(i as int)[0] == self@[i as int]);
                assert(self@.skip(i as int).skip(1) =~= self@.skip(i as int + 1));
            }
            if str_eq(self.entries[i].0.as_str(), key) {
                return Some(&self.entries[i].1);
            }
            i = i + 1;
        }
        proof {
            assert(self@.skip(n as int).len() == 0);
        }
        None
    }
}

impl<V: DeepClone> DeepClone for StringMap<V> {
    fn deep_clone(&self) -> (r: Self) {
        let mut out: Vec<(String, V)> = Vec::new();
        let n = self.entries.len();
        let mut i: usize = 0;
        while i < n
            invariant
                i <= n,
                n == self.entries@.len(),
                out@.len() == i,
                forall|j: int| 0 <= j < i ==> out@[j].0@ == self@[j].0 && out@[j].1@ == self@[j].1,
            decreases n - i,
        {
            let k = self.entries[i].0.clone();
            let x = self.entries[i].1.deep_clone();
            out.push((k, x));
            i = i + 1;
        }
        let r = StringMap { entries: out };
        proof {
            assert(r@ =~= self@);
        }
        r
    }
}

} // verus!
