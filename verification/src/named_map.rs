//! Small maps keyed by strings: entries kept in insertion order, each name
//! once. Lookups compare names by their characters.

use vstd::prelude::*;
use crate::text::str_eq;

verus! {

/// The value stored under `key`, if any.
pub open spec fn lookup<V>(s: Seq<(String, V)>, key: Seq<char>) -> Option<V>
    decreases s.len(),
{
    if s.len() == 0 {
        None
    } else if s.last().0@ == key {
        Some(s.last().1)
    } else {
        lookup(s.drop_last(), key)
    }
}

/// The names of the entries.
pub open spec fn keys_of<V>(s: Seq<(String, V)>) -> Seq<Seq<char>> {
    s.map_values(|e: (String, V)| e.0@)
}

/// Names pairwise distinct.
pub open spec fn distinct_keys<V>(s: Seq<(String, V)>) -> bool {
    forall|i: int, k: int| 0 <= i < s.len() && 0 <= k < s.len() && i != k ==> s[i].0@ != s[k].0@
}

proof fn lemma_lookup_found<V>(s: Seq<(String, V)>, i: int)
    requires
        distinct_keys(s),
        0 <= i < s.len(),
    ensures
        lookup(s, s[i].0@) == Some(s[i].1),
    decreases s.len(),
{
    if i < s.len() - 1 {
        assert(s.last().0@ != s[i].0@);
        let d = s.drop_last();
        assert(d[i] == s[i]);
        lemma_lookup_found(d, i);
    }
}

proof fn lemma_lookup_absent<V>(s: Seq<(String, V)>, key: Seq<char>)
    requires
        forall|k: int| 0 <= k < s.len() ==> s[k].0@ != key,
    ensures
        lookup(s, key) is None,
    decreases s.len(),
{
    if s.len() > 0 {
        let d = s.drop_last();
        assert forall|k: int| 0 <= k < d.len() implies d[k].0@ != key by {
            assert(d[k] == s[k]);
        }
        lemma_lookup_absent(d, key);
    }
}

proof fn lemma_lookup_some<V>(s: Seq<(String, V)>, key: Seq<char>)
    requires
        lookup(s, key) is Some,
    ensures
        exists|k: int| 0 <= k < s.len() && s[k].0@ == key && lookup(s, key) == Some(s[k].1),
    decreases s.len(),
{
    if s.last().0@ != key {
        let d = s.drop_last();
        lemma_lookup_some(d, key);
        let k = choose|k: int| 0 <= k < d.len() && d[k].0@ == key && lookup(d, key) == Some(d[k].1);
        assert(s[k] == d[k]);
    } else {
        assert(s[s.len() - 1] == s.last());
    }
}

/// Values by name, in insertion order, each name once.
#[derive(Clone, Debug)]
pub struct NamedMap<V> {
    entries: Vec<(String, V)>,
}

impl<V> View for NamedMap<V> {
    type V = Seq<(String, V)>;

    closed spec fn view(&self) -> Seq<(String, V)> {
        self.entries@
    }
}

impl<V> NamedMap<V> {
    /// Well-formedness: names are distinct.
    pub closed spec fn wf(&self) -> bool {
        distinct_keys(self@)
    }

    /// An empty map.
    pub fn new() -> (r: Self)
        ensures
            r.wf(),
            r@ == Seq::<(String, V)>::empty(),
    {
        NamedMap { entries: Vec::new() }
    }

    /// Number of entries.
    pub fn len(&self) -> (r: usize)
        ensures
            r == self@.len(),
    {
        self.entries.len()
    }

    /// Whether the map is empty.
    pub fn is_empty(&self) -> (r: bool)
        ensures
            r == (self@.len() == 0),
    {
        self.entries.len() == 0
    }

    fn position(&self, key: &str) -> (r: Option<usize>)
        ensures
            match r {
                Some(i) => i < self@.len() && self@[i as int].0@ == key@,
                None => forall|k: int| 0 <= k < self@.len() ==> self@[k].0@ != key@,
            },
    {
        let mut i: usize = 0;
        while i < self.entries.len()
            invariant
                i <= self.entries.len(),
                forall|k: int| 0 <= k < i ==> self.entries@[k].0@ != key@,
            decreases self.entries.len() - i,
        {
            if str_eq(self.entries[i].0.as_str(), key) {
                return Some(i);
            }
            i += 1;
        }
        None
    }

    /// The name at position `i`.
    pub fn key_at(&self, i: usize) -> (r: String)
        requires
            i < self@.len(),
        ensures
            r@ == keys_of(self@)[i as int],
    {
        self.entries[i].0.clone()
    }

    /// The value at position `i`.
    pub fn value_at(&self, i: usize) -> (r: &V)
        requires
            i < self@.len(),
        ensures
            *r == self@[i as int].1,
    {
        &self.entries[i].1
    }

    /// Names at different positions differ.
    pub proof fn lemma_distinct(&self, i: int, k: int)
        requires
            self.wf(),
            0 <= i < self@.len(),
            0 <= k < self@.len(),
            i != k,
        ensures
            self@[i].0@ != self@[k].0@,
    {
    }

    /// The value stored under `key`.
    pub fn get(&self, key: &str) -> (r: Option<&V>)
        requires
            self.wf(),
        ensures
            match r {
                Some(p) => lookup(self@, key@) == Some(*p),
                None => lookup(self@, key@) is None,
            },
    {
        match self.position(key) {
            Some(i) => {
                proof {
                    lemma_lookup_found(self@, i as int);
                }
                Some(&self.entries[i].1)
            },
            None => {
                proof {
                    lemma_lookup_absent(self@, key@);
                }
                None
            },
        }
    }

    /// Whether a value is stored under `key`.
    pub fn contains_key(&self, key: &str) -> (r: bool)
        requires
            self.wf(),
        ensures
            r == lookup(self@, key@) is Some,
    {
        match self.get(key) {
            Some(_) => true,
            None => false,
        }
    }

    /// Stores `value` under `key`, giving back the value it replaces.
    pub fn insert(&mut self, key: String, value: V) -> (r: Option<V>)
        requires
            old(self).wf(),
        ensures
            final(self).wf(),
            r == lookup(old(self)@, key@),
            lookup(final(self)@, key@) == Some(value),
            forall|k: Seq<char>| k != key@ ==> lookup(final(self)@, k) == lookup(old(self)@, k),
            keys_of(final(self)@).to_set() == keys_of(old(self)@).to_set().insert(key@),
    {
        let ghost o = self@;
        let ghost kv = key@;
        match self.position(key.as_str()) {
            Some(i) => {
                let mut e = (key, value);
                self.entries.set_and_swap(i, &mut e);
                proof {
                    lemma_lookup_found(o, i as int);
                    assert forall|a: int, b: int|
                        0 <= a < self@.len() && 0 <= b < self@.len() && a != b implies self@[a].0@
                        != self@[b].0@ by {
                        if a != i && b != i {
                            assert(self@[a] == o[a] && self@[b] == o[b]);
                        } else if a == i {
                            assert(self@[b] == o[b]);
                        } else {
                            assert(self@[a] == o[a]);
                        }
                    }
                    lemma_lookup_found(self@, i as int);
                    assert forall|k: Seq<char>| k != kv implies lookup(self@, k) == lookup(o, k) by {
                        if lookup(o, k) is Some {
                            lemma_lookup_some(o, k);
                            let j = choose|j: int|
                                0 <= j < o.len() && o[j].0@ == k && lookup(o, k) == Some(o[j].1);
                            assert(self@[j] == o[j]);
                            lemma_lookup_found(self@, j);
                        } else {
                            if lookup(self@, k) is Some {
                                lemma_lookup_some(self@, k);
                                let j = choose|j: int|
                                    0 <= j < self@.len() && self@[j].0@ == k && lookup(self@, k)
                                        == Some(self@[j].1);
                                assert(self@[j] == o[j]);
                                lemma_lookup_found(o, j);
                            }
                        }
                    }
                    assert(keys_of(self@) =~= keys_of(o));
                    assert(keys_of(o)[i as int] == kv);
                    assert(keys_of(o).to_set() =~= keys_of(o).to_set().insert(kv));
                }
                Some(e.1)
            },
            None => {
                self.entries.push((key, value));
                proof {
                    lemma_lookup_absent(o, kv);
                    assert(self@.drop_last() =~= o);
                    assert forall|k: Seq<char>| k != kv implies lookup(self@, k) == lookup(o, k) by {
                    }
                    assert(keys_of(self@) =~= keys_of(o).push(kv));
                    assert forall|x: Seq<char>|
                        keys_of(self@).to_set().contains(x) == keys_of(o).to_set().insert(
                            kv,
                        ).contains(x) by {
                        broadcast use vstd::seq_lib::group_seq_properties;

                        if keys_of(o).contains(x) {
                            let j = choose|j: int| 0 <= j < keys_of(o).len() && keys_of(o)[j] == x;
                            assert(keys_of(self@)[j] == x);
                        }
                        if keys_of(self@).contains(x) && x != kv {
                            let j = choose|j: int|
                                0 <= j < keys_of(self@).len() && keys_of(self@)[j] == x;
                            assert(j < o.len());
                            assert(keys_of(o)[j] == x);
                        }
                    }
                    assert(keys_of(self@).to_set() =~= keys_of(o).to_set().insert(kv));
                }
                None
            },
        }
    }

    /// Removes the entry stored under `key`, if any.
    pub fn remove(&mut self, key: &str)
        requires
            old(self).wf(),
        ensures
            final(self).wf(),
            lookup(final(self)@, key@) is None,
            forall|k: Seq<char>| k != key@ ==> lookup(final(self)@, k) == lookup(old(self)@, k),
    {
        let ghost o = self@;
        match self.position(key) {
            Some(i) => {
                let _ = self.entries.remove(i);
                proof {
                    assert forall|a: int, b: int|
                        0 <= a < self@.len() && 0 <= b < self@.len() && a != b implies self@[a].0@
                        != self@[b].0@ by {
                        let a2 = if a < i { a } else { a + 1 };
                        let b2 = if b < i { b } else { b + 1 };
                        assert(self@[a] == o[a2] && self@[b] == o[b2]);
                    }
                    assert forall|k: int| 0 <= k < self@.len() implies self@[k].0@ != key@ by {
                        let k2 = if k < i { k } else { k + 1 };
                        assert(self@[k] == o[k2]);
                    }
                    lemma_lookup_absent(self@, key@);
                    assert forall|k: Seq<char>| k != key@ implies lookup(self@, k) == lookup(o, k) by {
                        if lookup(o, k) is Some {
                            lemma_lookup_some(o, k);
                            let j = choose|j: int| 0 <= j < o.len() && o[j].0@ == k && lookup(o, k) == Some(o[j].1);
                            assert(j != i);
                            let j2 = if j < i { j } else { j - 1 };
                            assert(self@[j2] == o[j]);
                            lemma_lookup_found(self@, j2);
                        } else if lookup(self@, k) is Some {
                            lemma_lookup_some(self@, k);
                            let j = choose|j: int| 0 <= j < self@.len() && self@[j].0@ == k && lookup(self@, k) == Some(self@[j].1);
                            let j2 = if j < i { j } else { j + 1 };
                            assert(self@[j] == o[j2]);
                            lemma_lookup_found(o, j2);
                        }
                    }
                }
            },
            None => {
                proof {
                    lemma_lookup_absent(o, key@);
                }
            },
        }
    }
}


/// Strings by name.
pub type StringMap = NamedMap<String>;

impl NamedMap<String> {
    /// A copy of the map, entry for entry.
    pub fn clone_strings(&self) -> (r: NamedMap<String>)
        ensures
            r@ == self@,
    {
        let mut entries: Vec<(String, String)> = Vec::new();
        let mut i: usize = 0;
        while i < self.entries.len()
            invariant
                i <= self.entries.len(),
                entries@ == self.entries@.take(i as int),
            decreases self.entries.len() - i,
        {
            let e = (self.entries[i].0.clone(), self.entries[i].1.clone());
            entries.push(e);
            assert(self.entries@.take(i + 1) =~= self.entries@.take(i as int).push(self.entries@[i as int]));
            i += 1;
        }
        assert(self.entries@.take(self.entries.len() as int) =~= self.entries@);
        NamedMap { entries }
    }
}

} // verus!
