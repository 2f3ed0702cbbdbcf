//! A map keyed by text, kept as a list of distinct keys.  It serves where the
//! servers keep a `HashMap<String, _>`: query parameters, database rows, the
//! clients seen by the rate limiter and the sockets in use.
use vstd::prelude::*;

verus! {

/// A map from text keys to values.
pub struct StringMap<V> {
    entries: Vec<(String, V)>,
}

impl<V> StringMap<V> {
    /// The keys in the order in which they are kept.
    pub closed spec fn keys(&self) -> Seq<Seq<char>> {
        keys_of(self.entries@)
    }

    #[verifier::type_invariant]
    closed spec fn distinct_keys(&self) -> bool {
        self.keys().no_duplicates()
    }

    pub closed spec fn view(&self) -> Map<Seq<char>, V> {
        Map::new(
            |k: Seq<char>| self.keys().contains(k),
            |k: Seq<char>| self.entries@[self.keys().index_of(k)].1,
        )
    }

    /// The keys are exactly the keys of the map.
    proof fn lemma_keys(&self)
        requires
            self.keys().no_duplicates(),
        ensures
            self.keys().no_duplicates(),
            self.keys().len() == self@.dom().len(),
            self.keys().to_set() == self@.dom(),
            self@.dom().finite(),
    {
        assert(self.keys().to_set() =~= self@.dom());
        self.keys().unique_seq_to_set();
        vstd::seq_lib::seq_to_set_is_finite(self.keys());
    }

    proof fn lemma_value_at(&self, i: int)
        requires
            self.keys().no_duplicates(),
            0 <= i < self.entries@.len(),
        ensures
            self@.dom().contains(self.entries@[i].0@),
            self@[self.entries@[i].0@] == self.entries@[i].1,
    {
        let k = self.entries@[i].0@;
        assert(self.keys()[i] == k);
        let j = self.keys().index_of(k);
        assert(self.keys()[j] == k);
        assert(i == j);
    }

    /// An empty map.
    pub fn new() -> (r: Self)
        ensures
            r@ == Map::<Seq<char>, V>::empty(),
            r@.dom().finite(),
    {
        let r = StringMap { entries: Vec::new() };
        assert(r@ =~= Map::<Seq<char>, V>::empty());
        r
    }

    /// The number of keys.
    pub fn len(&self) -> (r: usize)
        ensures
            r == self@.dom().len(),
            r == self.keys().len(),
            self@.dom().finite(),
            self.keys().no_duplicates(),
            self.keys().to_set() == self@.dom(),
    {
        proof {
            use_type_invariant(self);
            self.lemma_keys();
        }
        self.entries.len()
    }

    fn find(&self, key: &String) -> (r: Option<usize>)
        requires
            self.keys().no_duplicates(),
        ensures
            match r {
                Some(i) => i < self.entries@.len() && self.entries@[i as int].0@ == key@,
                None => !self@.dom().contains(key@),
            },
    {
        self_find(&self.entries, key)
    }

    /// The value kept for `key`, if any.
    pub fn get(&self, key: &String) -> (r: Option<&V>)
        ensures
            match r {
                Some(v) => self@.dom().contains(key@) && *v == self@[key@],
                None => !self@.dom().contains(key@),
            },
    {
        proof {
            use_type_invariant(self);
        }
        match self.find(key) {
            Some(i) => {
                proof {
                    self.lemma_value_at(i as int);
                }
                Some(&self.entries[i].1)
            },
            None => None,
        }
    }

    /// Whether `key` has a value.
    pub fn contains_key(&self, key: &String) -> (r: bool)
        ensures
            r == self@.dom().contains(key@),
    {
        proof {
            use_type_invariant(self);
        }
        match self.find(key) {
            Some(i) => {
                proof {
                    self.lemma_value_at(i as int);
                }
                true
            },
            None => false,
        }
    }

    /// The key and value kept at position `i`.
    pub fn entry_at(&self, i: usize) -> (r: (&String, &V))
        requires
            i < self.keys().len(),
        ensures
            r.0@ == self.keys()[i as int],
            self@.dom().contains(r.0@),
            self@[r.0@] == *r.1,
    {
        proof {
            use_type_invariant(self);
        }
        proof {
            self.lemma_value_at(i as int);
        }
        let e = &self.entries[i];
        (&e.0, &e.1)
    }

    /// The entries, in the order of `keys`.
    pub fn into_entries(self) -> (r: Vec<(String, V)>)
        ensures
            keys_of(r@) == self.keys(),
            keys_of(r@).no_duplicates(),
            keys_of(r@).to_set() == self@.dom(),
            forall|i: int| 0 <= i < r@.len() ==> self@[(#[trigger] r@[i]).0@] == r@[i].1,
    {
        proof {
            use_type_invariant(&self);
            self.lemma_keys();
            assert forall|i: int| 0 <= i < self.entries@.len() implies self@[(
            #[trigger] self.entries@[i]).0@] == self.entries@[i].1 by {
                self.lemma_value_at(i);
            }
        }
        self.entries
    }

    /// Sets the value of `key`, replacing the one it had.
    pub fn insert(&mut self, key: String, value: V)
        ensures
            final(self)@ == old(self)@.insert(key@, value),
            final(self)@.dom().finite(),
    {
        proof {
            use_type_invariant(&*self);
            self.lemma_keys();
        }
        let ghost old_keys = self.keys();
        let ghost old_view = self@;
        let ghost k = key@;
        let mut entries: Vec<(String, V)> = Vec::new();
        std::mem::swap(&mut entries, &mut self.entries);
        match self_find(&entries, &key) {
            Some(i) => {
                entries.set(i, (key, value));
                assert(keys_of(entries@) =~= old_keys);
                self.entries = entries;
                proof {
                    self.lemma_value_at(i as int);
                    assert forall|kk: Seq<char>| #[trigger] self@.dom().contains(kk) && kk != k
                        implies self@[kk] == old_view[kk] by {
                        let j = old_keys.index_of(kk);
                        assert(old_keys[j] == kk);
                        assert(self.keys()[j] == kk);
                        assert(j != i);
                    }
                    assert(self@ =~= old_view.insert(k, value));
                }
            },
            None => {
                entries.push((key, value));
                assert(keys_of(entries@) =~= old_keys.push(k));
                assert(keys_of(entries@).no_duplicates()) by {
                    let ks = keys_of(entries@);
                    assert forall|a: int, b: int| 0 <= a < ks.len() && 0 <= b < ks.len() && a
                        != b implies ks[a] != ks[b] by {
                        if a == old_keys.len() {
                            assert(old_keys[b] == ks[b]);
                        } else if b == old_keys.len() {
                            assert(old_keys[a] == ks[a]);
                        }
                    }
                }
                self.entries = entries;
                proof {
                    let n = old_keys.len() as int;
                    self.lemma_value_at(n);
                    assert forall|kk: Seq<char>| #[trigger] self@.dom().contains(kk) && kk != k
                        implies self@[kk] == old_view[kk] by {
                        let jj = self.keys().index_of(kk);
                        assert(self.keys()[jj] == kk);
                        assert(jj != n);
                        assert(old_keys[jj] == kk);
                        let j = old_keys.index_of(kk);
                        assert(old_keys[j] == kk);
                        assert(j == jj);
                        self.lemma_value_at(j);
                    }
                    assert forall|kk: Seq<char>| old_view.dom().contains(kk) implies #[trigger] self@.dom().contains(kk) by {
                        let j = old_keys.index_of(kk);
                        assert(old_keys[j] == kk);
                        assert(self.keys()[j] == kk);
                    }
                    assert(self@ =~= old_view.insert(k, value));
                }
            },
        }
    }

    /// Removes `key` and its value.
    pub fn remove(&mut self, key: &String)
        ensures
            final(self)@ == old(self)@.remove(key@),
            final(self)@.dom().finite(),
    {
        proof {
            use_type_invariant(&*self);
            self.lemma_keys();
        }
        let ghost old_keys = self.keys();
        let ghost old_view = self@;
        let mut entries: Vec<(String, V)> = Vec::new();
        std::mem::swap(&mut entries, &mut self.entries);
        match self_find(&entries, key) {
            Some(i) => {
                let _ = entries.remove(i);
                assert(keys_of(entries@) =~= old_keys.remove(i as int));
                assert(keys_of(entries@).no_duplicates()) by {
                    let ks = keys_of(entries@);
                    assert forall|a: int, b: int| 0 <= a < ks.len() && 0 <= b < ks.len() && a
                        != b implies ks[a] != ks[b] by {
                        let oa = if a < i { a } else { a + 1 };
                        let ob = if b < i { b } else { b + 1 };
                        assert(old_keys[oa] == ks[a]);
                        assert(old_keys[ob] == ks[b]);
                    }
                }
                self.entries = entries;
                proof {
                    assert forall|kk: Seq<char>| #[trigger] self@.dom().contains(kk) implies kk
                        != key@ && old_view.dom().contains(kk) && self@[kk] == old_view[kk] by {
                        let j = self.keys().index_of(kk);
                        assert(self.keys()[j] == kk);
                        let oj = if j < i { j } else { j + 1 };
                        assert(old_keys[oj] == kk);
                        assert(old_keys[i as int] == key@);
                        self.lemma_value_at(j);
                        assert(old_keys.contains(kk));
                        let k2 = old_keys.index_of(kk);
                        assert(old_keys[k2] == kk);
                        assert(k2 == oj);
                    }
                    assert forall|kk: Seq<char>| old_view.dom().contains(kk) && kk != key@
                        implies #[trigger] self@.dom().contains(kk) by {
                        let j = old_keys.index_of(kk);
                        assert(old_keys[j] == kk);
                        assert(j != i);
                        let nj = if j < i { j } else { j - 1 };
                        assert(self.keys()[nj] == kk);
                    }
                    assert(self@ =~= old_view.remove(key@));
                }
            },
            None => {
                self.entries = entries;
                assert(self@ =~= old_view.remove(key@));
            },
        }
    }
}

/// The keys of a list of entries.
pub open spec fn keys_of<V>(entries: Seq<(String, V)>) -> Seq<Seq<char>> {
    entries.map_values(|e: (String, V)| e.0@)
}

/// Position of `key` among `entries`.
fn self_find<V>(entries: &Vec<(String, V)>, key: &String) -> (r: Option<usize>)
    ensures
        match r {
            Some(i) => i < entries@.len() && entries@[i as int].0@ == key@,
            None => !keys_of(entries@).contains(key@),
        },
{
    let n = entries.len();
    let mut i: usize = 0;
    while i < n
        invariant
            i <= n,
            n == entries@.len(),
            forall|j: int| 0 <= j < i ==> #[trigger] keys_of(entries@)[j] != key@,
        decreases n - i,
    {
        if entries[i].0 == *key {
            return Some(i);
        }
        assert(keys_of(entries@)[i as int] == entries@[i as int].0@);
        i = i + 1;
    }
    proof {
        if keys_of(entries@).contains(key@) {
            let j = keys_of(entries@).index_of(key@);
            assert(keys_of(entries@)[j] == key@);
        }
    }
    None
}

} // verus!
