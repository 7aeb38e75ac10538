//! An ordered map from text keys to text values, each key held once.

use vstd::prelude::*;

verus! {

/// Entries as `(key, value)` texts.
pub type TextPairs = Seq<(Seq<char>, Seq<char>)>;

/// No key occurs twice among the entries.
pub open spec fn keys_distinct(p: TextPairs) -> bool {
    forall|i: int, j: int| 0 <= i < p.len() && 0 <= j < p.len() && i != j ==> #[trigger] p[i].0 != #[trigger] p[j].0
}

/// Some entry has key `k`.
pub open spec fn has_key(p: TextPairs, k: Seq<char>) -> bool {
    exists|i: int| 0 <= i < p.len() && #[trigger] p[i].0 == k
}

/// The position of the entry with key `k` (meaningful when `has_key`).
pub open spec fn key_index(p: TextPairs, k: Seq<char>) -> int {
    choose|i: int| 0 <= i < p.len() && #[trigger] p[i].0 == k
}

/// The value stored under `k`, if any.
pub open spec fn lookup(p: TextPairs, k: Seq<char>) -> Option<Seq<char>> {
    if has_key(p, k) {
        Some(p[key_index(p, k)].1)
    } else {
        None
    }
}

/// The entries after storing `v` under `k`: an existing entry for `k` keeps
/// its place and takes the new value, otherwise the entry is appended.
pub open spec fn with_entry(p: TextPairs, k: Seq<char>, v: Seq<char>) -> TextPairs {
    if has_key(p, k) {
        p.update(key_index(p, k), (k, v))
    } else {
        p.push((k, v))
    }
}

/// A map of text keys to text values, kept in insertion order.
#[derive(Debug, PartialEq, Eq)]
pub struct StringMap {
    entries: Vec<(String, String)>,
}

impl StringMap {
    /// The entries, in order.
    pub closed spec fn pairs(self) -> TextPairs {
        self.entries@.map_values(|e: (String, String)| (e.0@, e.1@))
    }

    #[verifier::type_invariant]
    spec fn inv(self) -> bool {
        keys_distinct(self.pairs())
    }
}

impl View for StringMap {
    type V = TextPairs;

    open spec fn view(&self) -> TextPairs {
        self.pairs()
    }
}

impl StringMap {
    /// An empty map.
    pub fn new() -> (m: Self)
        ensures
            m@ == Seq::<(Seq<char>, Seq<char>)>::empty(),
            keys_distinct(m@),
    {
        let m = StringMap { entries: Vec::new() };
        assert(m.pairs() =~= Seq::<(Seq<char>, Seq<char>)>::empty());
        m
    }

    /// A map holding `pairs`, in order; no key may occur twice among them.
    pub fn from_pairs(pairs: Vec<(String, String)>) -> (m: Self)
        requires
            keys_distinct(pairs@.map_values(|e: (String, String)| (e.0@, e.1@))),
        ensures
            m@ == pairs@.map_values(|e: (String, String)| (e.0@, e.1@)),
            keys_distinct(m@),
    {
        StringMap { entries: pairs }
    }

    /// The number of entries.
    pub fn len(&self) -> (n: usize)
        ensures
            n == self@.len(),
            keys_distinct(self@),
    {
        proof {
            use_type_invariant(self);
        }
        self.entries.len()
    }

    /// The key of entry `i`.
    pub fn key_at(&self, i: usize) -> (k: &String)
        requires
            i < self@.len(),
        ensures
            k@ == self@[i as int].0,
    {
        &self.entries[i].0
    }

    /// The value of entry `i`.
    pub fn value_at(&self, i: usize) -> (v: &String)
        requires
            i < self@.len(),
        ensures
            v@ == self@[i as int].1,
    {
        &self.entries[i].1
    }

    /// The position of the entry with key `k`, if there is one.
    fn find(&self, k: &String) -> (r: Option<usize>)
        ensures
            match r {
                Some(i) => i < self@.len() && self@[i as int].0 == k@,
                None => !has_key(self@, k@),
            },
    {
        let mut i: usize = 0;
        while i < self.entries.len()
            invariant
                i <= self.entries@.len(),
                forall|j: int| 0 <= j < i ==> self@[j].0 != k@,
            decreases self.entries@.len() - i,
        {
            if self.entries[i].0 == *k {
                return Some(i);
            }
            i = i + 1;
        }
        None
    }

    /// The value stored under `key`, if any.
    pub fn get(&self, key: &str) -> (r: Option<String>)
        ensures
            match r {
                Some(v) => lookup(self@, key@) == Some(v@),
                None => lookup(self@, key@) is None,
            },
            keys_distinct(self@),
    {
        proof {
            use_type_invariant(self);
        }
        let k = String::from_str(key);
        match self.find(&k) {
            Some(i) => {
                proof {
                    lemma_key_index_unique(self@, k@, i as int);
                }
                Some(self.entries[i].1.clone())
            },
            None => None,
        }
    }

    /// Stores `value` under `key`, replacing the value already stored there.
    pub fn insert(&mut self, key: String, value: String)
        ensures
            final(self)@ == with_entry(old(self)@, key@, value@),
            keys_distinct(old(self)@),
            keys_distinct(final(self)@),
            lookup(final(self)@, key@) == Some(value@),
            forall|k: Seq<char>| k != key@ ==> #[trigger] lookup(final(self)@, k) == lookup(old(self)@, k),
    {
        proof {
            use_type_invariant(&*self);
        }
        let ghost k = key@;
        let ghost v = value@;
        let ghost before = self@;
        match self.find(&key) {
            Some(i) => {
                proof {
                    lemma_key_index_unique(before, k, i as int);
                    lemma_with_entry_distinct(before, k, v);
                }
                let mut entries: Vec<(String, String)> = Vec::new();
                std::mem::swap(&mut entries, &mut self.entries);
                entries.set(i, (key, value));
                assert(entries@.map_values(|e: (String, String)| (e.0@, e.1@)) =~= with_entry(
                    before,
                    k,
                    v,
                ));
                self.entries = entries;
            },
            None => {
                proof {
                    lemma_with_entry_distinct(before, k, v);
                }
                let mut entries: Vec<(String, String)> = Vec::new();
                std::mem::swap(&mut entries, &mut self.entries);
                entries.push((key, value));
                assert(entries@.map_values(|e: (String, String)| (e.0@, e.1@)) =~= with_entry(
                    before,
                    k,
                    v,
                ));
                self.entries = entries;
            },
        }
        proof {
            assert forall|other: Seq<char>| other != k implies #[trigger] lookup(self@, other) == lookup(before, other) by {
                lemma_lookup_after_insert(before, k, v, other);
            }
            if k != Seq::<char>::empty() {
                lemma_lookup_after_insert(before, k, v, Seq::empty());
            } else {
                assert(seq!['a'].len() == 1);
                lemma_lookup_after_insert(before, k, v, seq!['a']);
            }
        }
    }
}

impl Clone for StringMap {
    /// A copy with the same entries in the same order.
    fn clone(&self) -> (r: Self)
        ensures
            r@ == self@,
            keys_distinct(r@),
    {
        proof {
            use_type_invariant(self);
        }
        let mut entries: Vec<(String, String)> = Vec::new();
        let mut i: usize = 0;
        while i < self.entries.len()
            invariant
                i <= self.entries@.len(),
                keys_distinct(self@),
                entries@.map_values(|e: (String, String)| (e.0@, e.1@)) =~= self@.take(i as int),
            decreases self.entries@.len() - i,
        {
            let k = self.entries[i].0.clone();
            let v = self.entries[i].1.clone();
            assert(self.pairs()[i as int] == (k@, v@));
            let ghost prev = entries@;
            entries.push((k, v));
            assert(entries@.map_values(|e: (String, String)| (e.0@, e.1@)) =~= prev.map_values(|e: (String, String)| (e.0@, e.1@)).push((k@, v@)));
            i = i + 1;
            assert(entries@.map_values(|e: (String, String)| (e.0@, e.1@)) =~= self@.take(i as int));
        }
        assert(self@.take(i as int) =~= self@);
        StringMap { entries }
    }
}

/// With distinct keys, the entry found for `k` is the only one.
pub proof fn lemma_key_index_unique(p: TextPairs, k: Seq<char>, i: int)
    requires
        keys_distinct(p),
        0 <= i < p.len(),
        p[i].0 == k,
    ensures
        has_key(p, k),
        key_index(p, k) == i,
        lookup(p, k) == Some(p[i].1),
{
    assert(has_key(p, k));
    let j = key_index(p, k);
    assert(p[j].0 == k);
}

/// Storing an entry keeps the keys distinct.
pub proof fn lemma_with_entry_distinct(p: TextPairs, k: Seq<char>, v: Seq<char>)
    requires
        keys_distinct(p),
    ensures
        keys_distinct(with_entry(p, k, v)),
{
    let q = with_entry(p, k, v);
    if has_key(p, k) {
        let idx = key_index(p, k);
        assert forall|i: int, j: int| 0 <= i < q.len() && 0 <= j < q.len() && i != j implies #[trigger] q[i].0 != #[trigger] q[j].0 by {
            if i != idx && j != idx {
                assert(q[i] == p[i] && q[j] == p[j]);
            } else if i == idx {
                assert(q[j] == p[j]);
                assert(p[idx].0 == k);
            } else {
                assert(q[i] == p[i]);
                assert(p[idx].0 == k);
            }
        }
    } else {
        assert forall|i: int, j: int| 0 <= i < q.len() && 0 <= j < q.len() && i != j implies #[trigger] q[i].0 != #[trigger] q[j].0 by {
            if i < p.len() && j < p.len() {
                assert(q[i] == p[i] && q[j] == p[j]);
            } else if i == p.len() {
                assert(q[j] == p[j]);
                assert(!(p[j].0 == k));
            } else {
                assert(q[i] == p[i]);
                assert(!(p[i].0 == k));
            }
        }
    }
}

/// A read gives back what the last write under the same key stored, and a
/// write under one key leaves what is stored under every other key unchanged.
pub proof fn lemma_lookup_after_insert(p: TextPairs, k: Seq<char>, v: Seq<char>, other: Seq<char>)
    requires
        keys_distinct(p),
        other != k,
    ensures
        lookup(with_entry(p, k, v), k) == Some(v),
        lookup(with_entry(p, k, v), other) == lookup(p, other),
{
    let q = with_entry(p, k, v);
    lemma_with_entry_distinct(p, k, v);
    let idx = if has_key(p, k) { key_index(p, k) } else { p.len() as int };
    assert(q[idx] == (k, v));
    lemma_key_index_unique(q, k, idx);
    if has_key(p, other) {
        let o = key_index(p, other);
        assert(p[o].0 == other);
        assert(q[o] == p[o]);
        lemma_key_index_unique(q, other, o);
        lemma_key_index_unique(p, other, o);
    } else {
        if has_key(q, other) {
            let o = key_index(q, other);
            assert(q[o].0 == other);
            assert(o != idx);
            assert(p[o] == q[o]);
        }
    }
}

} // verus!
