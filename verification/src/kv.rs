//! A small string-keyed association map with insertion order.
//!
//! The engine keeps metadata and module filters in maps whose contents the
//! contracts must speak about, so the map is a plain vector of pairs with
//! unique keys: its view is the full sequence of entries, and lookup,
//! insertion and merging have exact contracts over that sequence.

use crate::text::str_eq;
use vstd::pervasive::VecAdditionalExecFns;
use vstd::prelude::*;

verus! {

/// The index of the first entry of `s` whose key is `k`, if any.
pub open spec fn spec_find_key<V>(s: Seq<(Seq<char>, V)>, k: Seq<char>) -> Option<int>
    decreases s.len(),
{
    if s.len() == 0 {
        None
    } else if s[0].0 == k {
        Some(0)
    } else {
        match spec_find_key(s.drop_first(), k) {
            Some(i) => Some(i + 1),
            None => None,
        }
    }
}

/// The value stored under `k` in `s`, if any (first match).
pub open spec fn spec_lookup<V>(s: Seq<(Seq<char>, V)>, k: Seq<char>) -> Option<V> {
    match spec_find_key(s, k) {
        Some(i) => Some(s[i].1),
        None => None,
    }
}

/// No two entries of `s` share a key.
pub open spec fn spec_keys_unique<V>(s: Seq<(Seq<char>, V)>) -> bool {
    forall|i: int, j: int| 0 <= i < j < s.len() ==> s[i].0 != s[j].0
}

pub broadcast proof fn lemma_find_key_bounds<V>(s: Seq<(Seq<char>, V)>, k: Seq<char>)
    ensures
        match #[trigger] spec_find_key(s, k) {
            Some(i) => 0 <= i < s.len() && s[i].0 == k && (forall|j: int|
                0 <= j < i ==> s[j].0 != k),
            None => forall|j: int| 0 <= j < s.len() ==> s[j].0 != k,
        },
    decreases s.len(),
{
    if s.len() > 0 && s[0].0 != k {
        let t = s.drop_first();
        lemma_find_key_bounds(t, k);
        assert(forall|j: int| 1 <= j < s.len() ==> s[j] == t[j - 1]);
        match spec_find_key(t, k) {
            Some(i) => {
                assert(s[i + 1] == t[i]);
                assert(forall|j: int| 0 <= j < i + 1 ==> s[j].0 != k) by {
                    assert(forall|j: int| 1 <= j < i + 1 ==> s[j] == t[j - 1]);
                }
            },
            None => {
                assert(forall|j: int| 0 <= j < s.len() ==> s[j].0 != k);
            },
        }
    }
}

/// A string-keyed map that remembers insertion order. Keys are unique;
/// inserting an existing key replaces its value in place.
#[derive(Debug)]
pub struct KvMap<V> {
    entries: Vec<(String, V)>,
}

impl<V: View> View for KvMap<V> {
    type V = Seq<(Seq<char>, V::V)>;

    closed spec fn view(&self) -> Seq<(Seq<char>, V::V)> {
        self.entries@.map(|_i: int, e: (String, V)| (e.0@, e.1@))
    }
}

impl<V: View> KvMap<V> {
    /// Creates an empty map.
    pub fn new() -> (r: KvMap<V>)
        ensures
            r@ == Seq::<(Seq<char>, V::V)>::empty(),
    {
        let r = KvMap { entries: Vec::new() };
        proof {
            assert(r@ =~= Seq::<(Seq<char>, V::V)>::empty());
        }
        r
    }

    /// The number of entries.
    pub fn len(&self) -> (r: usize)
        ensures
            r == self@.len(),
    {
        self.entries.len()
    }

    /// Whether the map has no entries.
    pub fn is_empty(&self) -> (r: bool)
        ensures
            r == (self@.len() == 0),
    {
        self.entries.len() == 0
    }

    /// The key of the entry at position `i`, in insertion order.
    pub fn key_at(&self, i: usize) -> (r: &String)
        requires
            i < self@.len(),
        ensures
            r@ == self@[i as int].0,
    {
        &self.entries[i].0
    }

    /// The value of the entry at position `i`, in insertion order.
    pub fn value_at(&self, i: usize) -> (r: &V)
        requires
            i < self@.len(),
        ensures
            r@ == self@[i as int].1,
    {
        &self.entries[i].1
    }

    /// The position of `key` in the map, if present.
    pub fn find(&self, key: &str) -> (r: Option<usize>)
        ensures
            match r {
                Some(i) => spec_find_key(self@, key@) == Some(i as int),
                None => spec_find_key(self@, key@) is None,
            },
    {
        let n = self.entries.len();
        let mut i: usize = 0;
        while i < n
            invariant
                i <= n,
                n == self@.len(),
                n == self.entries@.len(),
                forall|j: int| 0 <= j < i ==> self@[j].0 != key@,
            decreases n - i,
        {
            if str_eq(self.entries[i].0.as_str(), key) {
                proof {
                    lemma_find_key_bounds(self@, key@);
                    let r = spec_find_key(self@, key@);
                    assert(self@[i as int].0 == key@);
                    assert(r is Some);
                    let ri = r->Some_0;
                    assert(!(ri < i as int)) by {
                        assert(self@[ri].0 == key@);
                    }
                    assert(!(ri > i as int)) by {
                        assert(self@[i as int].0 == key@);
                    }
                }
                return Some(i);
            }
            i += 1;
        }
        proof {
            lemma_find_key_bounds(self@, key@);
        }
        None
    }

    /// Looks up the value stored under `key`.
    pub fn get(&self, key: &str) -> (r: Option<&V>)
        ensures
            match r {
                Some(v) => spec_lookup(self@, key@) == Some(v@),
                None => spec_lookup(self@, key@) is None,
            },
    {
        proof {
            lemma_find_key_bounds(self@, key@);
        }
        match self.find(key) {
            Some(i) => Some(&self.entries[i].1),
            None => None,
        }
    }

    /// Whether `key` is present.
    pub fn contains_key(&self, key: &str) -> (r: bool)
        ensures
            r == (spec_lookup(self@, key@) is Some),
    {
        self.find(key).is_some()
    }

    /// Inserts `value` under `key`: an existing entry is replaced in place,
    /// a new key is appended at the end.
    pub fn insert(&mut self, key: String, value: V)
        ensures
            final(self)@ == spec_insert_one(old(self)@, key@, value@),
            spec_keys_unique(old(self)@) ==> spec_keys_unique(final(self)@),
    {
        proof {
            lemma_find_key_bounds(self@, key@);
        }
        let ghost old_view = self@;
        let ghost gk = key@;
        let ghost gv = value@;
        match self.find(key.as_str()) {
            Some(i) => {
                let ghost gi = i as int;
                self.entries.set(i, (key, value));
                proof {
                    assert(self@ =~= old_view.update(gi, (gk, gv)));
                    if spec_keys_unique(old_view) {
                        assert(forall|j: int| 0 <= j < self@.len() && j != gi ==> self@[j].0
                            == old_view[j].0);
                        assert(spec_keys_unique(self@));
                    }
                }
            },
            None => {
                self.entries.push((key, value));
                proof {
                    assert(self@ =~= old_view.push((gk, gv)));
                    if spec_keys_unique(old_view) {
                        assert(spec_keys_unique(self@));
                    }
                }
            },
        }
    }
}

impl KvMap<String> {
    /// Inserts every entry of `other`, in its insertion order; an entry of
    /// `other` replaces an entry of `self` with the same key.
    pub fn extend(&mut self, other: &KvMap<String>)
        ensures
            final(self)@ == spec_extend(old(self)@, other@),
            spec_keys_unique(old(self)@) ==> spec_keys_unique(final(self)@),
    {
        let n = other.entries.len();
        let mut i: usize = 0;
        proof {
            assert(other@.subrange(0, 0) =~= Seq::<(Seq<char>, Seq<char>)>::empty());
        }
        while i < n
            invariant
                i <= n,
                n == other@.len(),
                n == other.entries@.len(),
                self@ == spec_extend(old(self)@, other@.subrange(0, i as int)),
                spec_keys_unique(old(self)@) ==> spec_keys_unique(self@),
            decreases n - i,
        {
            let key = other.entries[i].0.clone();
            let value = other.entries[i].1.clone();
            let ghost before = self@;
            self.insert(key, value);
            proof {
                let sub1 = other@.subrange(0, i + 1);
                assert(sub1.drop_last() =~= other@.subrange(0, i as int));
                assert(sub1.last() == other@[i as int]);
                assert(other@[i as int] == (other.entries@[i as int].0@, other.entries@[
                    i as int].1@));
                assert(self@ == spec_insert_one(before, other@[i as int].0, other@[i as int].1));
            }
            i += 1;
        }
        proof {
            assert(other@.subrange(0, n as int) =~= other@);
        }
    }

}

impl Clone for KvMap<String> {
    /// Clones the map, entry for entry.
    fn clone(&self) -> (r: Self)
        ensures
            r@ == self@,
    {
        let n = self.entries.len();
        let mut entries: Vec<(String, String)> = Vec::new();
        let mut i: usize = 0;
        while i < n
            invariant
                i <= n,
                n == self.entries@.len(),
                entries@.len() == i,
                forall|j: int| 0 <= j < i ==> entries@[j] == self.entries@[j],
            decreases n - i,
        {
            let k = self.entries[i].0.clone();
            let v = self.entries[i].1.clone();
            entries.push((k, v));
            i += 1;
        }
        proof {
            assert(entries@ =~= self.entries@);
        }
        let r = KvMap { entries };
        proof {
            assert(r@ =~= self@);
        }
        r
    }
}

impl Clone for KvMap<crate::level::LogLevel> {
    /// Clones the map, entry for entry.
    fn clone(&self) -> (r: Self)
        ensures
            r@ == self@,
    {
        let n = self.entries.len();
        let mut entries: Vec<(String, crate::level::LogLevel)> = Vec::new();
        let mut i: usize = 0;
        while i < n
            invariant
                i <= n,
                n == self.entries@.len(),
                entries@.len() == i,
                forall|j: int| 0 <= j < i ==> entries@[j] == self.entries@[j],
            decreases n - i,
        {
            let k = self.entries[i].0.clone();
            let v = self.entries[i].1;
            entries.push((k, v));
            i += 1;
        }
        proof {
            assert(entries@ =~= self.entries@);
        }
        let r = KvMap { entries };
        proof {
            assert(r@ =~= self@);
        }
        r
    }
}

/// The result of inserting every entry of `add` into `base`, in order.
pub open spec fn spec_extend<V>(base: Seq<(Seq<char>, V)>, add: Seq<(Seq<char>, V)>) -> Seq<
    (Seq<char>, V),
>
    decreases add.len(),
{
    if add.len() == 0 {
        base
    } else {
        spec_insert_one(spec_extend(base, add.drop_last()), add.last().0, add.last().1)
    }
}

/// The result of one insertion into `s`.
pub open spec fn spec_insert_one<V>(s: Seq<(Seq<char>, V)>, k: Seq<char>, v: V) -> Seq<
    (Seq<char>, V),
> {
    match spec_find_key(s, k) {
        Some(i) => s.update(i, (k, v)),
        None => s.push((k, v)),
    }
}

} // verus!
