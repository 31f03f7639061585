//! A map keyed by strings, seen as a `Map` from the characters of each key.
//!
//! The entries are kept in a vector, each key at most once. Reading a key gives
//! back the value last written for it; merging a map into another lets the
//! entries of the second win.

use vstd::prelude::*;

use crate::text::str_eq;

verus! {

/// The map that `s` describes, later entries overriding earlier ones.
pub open spec fn pairs_map<V>(s: Seq<(String, V)>) -> Map<Seq<char>, V>
    decreases s.len(),
{
    if s.len() == 0 {
        Map::empty()
    } else {
        pairs_map(s.drop_last()).insert(s.last().0@, s.last().1)
    }
}

/// No key appears twice in `s`.
pub open spec fn keys_unique<V>(s: Seq<(String, V)>) -> bool {
    forall|i: int, j: int| 0 <= i < j < s.len() ==> s[i].0@ != s[j].0@
}

/// The keys of `s` are those of the map it describes.
pub proof fn lemma_pairs_map_dom<V>(s: Seq<(String, V)>, k: Seq<char>)
    ensures
        pairs_map(s).contains_key(k) <==> exists|i: int| 0 <= i < s.len() && s[i].0@ == k,
    decreases s.len(),
{
    if s.len() > 0 {
        let d = s.drop_last();
        lemma_pairs_map_dom(d, k);
        if pairs_map(s).contains_key(k) && s.last().0@ != k {
            let i = choose|i: int| 0 <= i < d.len() && d[i].0@ == k;
            assert(s[i].0@ == k);
        }
        if exists|i: int| 0 <= i < s.len() && s[i].0@ == k {
            let i = choose|i: int| 0 <= i < s.len() && s[i].0@ == k;
            if i < s.len() - 1 {
                assert(d[i].0@ == k);
            }
        }
    }
}

/// With unique keys, the value of each entry is the value of its key.
pub proof fn lemma_pairs_map_at<V>(s: Seq<(String, V)>, i: int)
    requires
        keys_unique(s),
        0 <= i < s.len(),
    ensures
        pairs_map(s).contains_key(s[i].0@),
        pairs_map(s)[s[i].0@] == s[i].1,
    decreases s.len(),
{
    if i < s.len() - 1 {
        let d = s.drop_last();
        assert(keys_unique(d));
        lemma_pairs_map_at(d, i);
        assert(d[i] == s[i]);
    }
}

/// Replacing the value of the entry of a key replaces the value of that key.
proof fn lemma_pairs_map_update<V>(s: Seq<(String, V)>, i: int, e: (String, V))
    requires
        keys_unique(s),
        0 <= i < s.len(),
        e.0@ == s[i].0@,
    ensures
        pairs_map(s.update(i, e)) == pairs_map(s).insert(e.0@, e.1),
        keys_unique(s.update(i, e)),
    decreases s.len(),
{
    let t = s.update(i, e);
    let d = s.drop_last();
    assert(t.drop_last() =~= if i == s.len() - 1 {
        d
    } else {
        d.update(i, e)
    });
    if i < s.len() - 1 {
        assert(keys_unique(d));
        lemma_pairs_map_update(d, i, e);
        assert(s.last().0@ != e.0@);
        assert(pairs_map(t) =~= pairs_map(s).insert(e.0@, e.1));
    } else {
        assert(pairs_map(t) =~= pairs_map(s).insert(e.0@, e.1));
    }
}

/// Appending an entry for a new key inserts that key.
proof fn lemma_pairs_map_push<V>(s: Seq<(String, V)>, e: (String, V))
    requires
        keys_unique(s),
        forall|j: int| 0 <= j < s.len() ==> s[j].0@ != e.0@,
    ensures
        pairs_map(s.push(e)) == pairs_map(s).insert(e.0@, e.1),
        keys_unique(s.push(e)),
{
    assert(s.push(e).drop_last() =~= s);
}

/// Removing the entry of a key removes that key.
proof fn lemma_pairs_map_remove<V>(s: Seq<(String, V)>, i: int)
    requires
        keys_unique(s),
        0 <= i < s.len(),
    ensures
        pairs_map(s.remove(i)) == pairs_map(s).remove(s[i].0@),
        keys_unique(s.remove(i)),
    decreases s.len(),
{
    let k = s[i].0@;
    let t = s.remove(i);
    let d = s.drop_last();
    assert(keys_unique(d));
    if i == s.len() - 1 {
        assert(t =~= d);
        lemma_pairs_map_dom(d, k);
        assert(!pairs_map(d).contains_key(k));
        assert(pairs_map(t) =~= pairs_map(s).remove(k));
    } else {
        assert(t.drop_last() =~= d.remove(i));
        assert(t.last() == s.last());
        lemma_pairs_map_remove(d, i);
        assert(d[i] == s[i]);
        assert(s.last().0@ != k);
        assert(pairs_map(t) =~= pairs_map(s).remove(k));
    }
}

/// A map keyed by strings.
#[derive(Debug)]
pub struct StrMap<V> {
    entries: Vec<(String, V)>,
}

impl<V> StrMap<V> {
    /// Each key appears in one entry at most.
    #[verifier::type_invariant]
    spec fn wf(self) -> bool {
        keys_unique(self.entries@)
    }
}

impl<V> View for StrMap<V> {
    type V = Map<Seq<char>, V>;

    closed spec fn view(&self) -> Map<Seq<char>, V> {
        pairs_map(self.entries@)
    }
}

impl<V> StrMap<V> {
    /// An empty map.
    pub fn new() -> (r: Self)
        ensures
            r@ == Map::<Seq<char>, V>::empty(),
    {
        StrMap { entries: Vec::new() }
    }

    /// The index of the entry of `k`.
    fn index_of(&self, k: &str) -> (r: Option<usize>)
        ensures
            r matches Some(i) ==> i < self.entries@.len() && self.entries@[i as int].0@ == k@,
            r is None ==> forall|j: int| 0 <= j < self.entries@.len() ==> self.entries@[j].0@ != k@,
    {
        let mut i: usize = 0;
        while i < self.entries.len()
            invariant
                i <= self.entries@.len(),
                forall|j: int| 0 <= j < i ==> self.entries@[j].0@ != k@,
            decreases self.entries.len() - i,
        {
            if str_eq(self.entries[i].0.as_str(), k) {
                return Some(i);
            }
            i = i + 1;
        }
        None
    }

    /// The value of `k`.
    pub fn get(&self, k: &str) -> (r: Option<&V>)
        ensures
            r matches Some(v) ==> self@.contains_key(k@) && self@[k@] == *v,
            r is None ==> !self@.contains_key(k@),
    {
        proof {
            use_type_invariant(self);
            lemma_pairs_map_dom(self.entries@, k@);
        }
        match self.index_of(k) {
            Some(i) => {
                proof {
                    lemma_pairs_map_at(self.entries@, i as int);
                }
                Some(&self.entries[i].1)
            },
            None => None,
        }
    }

    /// Sets the value of `k` to `v`.
    pub fn insert(&mut self, k: String, v: V)
        ensures
            final(self)@ == old(self)@.insert(k@, v),
    {
        proof {
            use_type_invariant(&*self);
        }
        match self.index_of(k.as_str()) {
            Some(i) => {
                proof {
                    lemma_pairs_map_update(self.entries@, i as int, (k, v));
                }
                let mut entries = Vec::new();
                std::mem::swap(&mut entries, &mut self.entries);
                entries.set(i, (k, v));
                self.entries = entries;
            },
            None => {
                proof {
                    lemma_pairs_map_push(self.entries@, (k, v));
                }
                let mut entries = Vec::new();
                std::mem::swap(&mut entries, &mut self.entries);
                entries.push((k, v));
                self.entries = entries;
            },
        }
    }

    /// Removes `k` and gives back its value.
    pub fn remove(&mut self, k: &str) -> (r: Option<V>)
        ensures
            final(self)@ == old(self)@.remove(k@),
            r matches Some(v) ==> old(self)@.contains_key(k@) && old(self)@[k@] == v,
            r is None ==> !old(self)@.contains_key(k@),
    {
        proof {
            use_type_invariant(&*self);
            lemma_pairs_map_dom(self.entries@, k@);
        }
        match self.index_of(k) {
            Some(i) => {
                proof {
                    lemma_pairs_map_at(self.entries@, i as int);
                    lemma_pairs_map_remove(self.entries@, i as int);
                }
                let mut entries = Vec::new();
                std::mem::swap(&mut entries, &mut self.entries);
                let (_, v) = entries.remove(i);
                self.entries = entries;
                Some(v)
            },
            None => {
                assert(old(self)@.remove(k@) =~= old(self)@);
                None
            },
        }
    }

    /// Adds the entries of `other`; where a key is in both, the value of `other` wins.
    pub fn extend(&mut self, other: Self)
        ensures
            final(self)@ == old(self)@.union_prefer_right(other@),
    {
        proof {
            use_type_invariant(&other);
        }
        let ghost all = other.entries@;
        let mut rest = other.entries;
        let ghost mut j: int = 0;
        assert(all.take(0) =~= Seq::<(String, V)>::empty());
        assert(all.skip(0) =~= all);
        while rest.len() > 0
            invariant
                0 <= j <= all.len(),
                rest@ == all.skip(j),
                self@ == old(self)@.union_prefer_right(pairs_map(all.take(j))),
            decreases rest.len(),
        {
            let (k, v) = rest.remove(0);
            proof {
                assert(all[j] == (k, v));
                assert(all.take(j + 1).drop_last() =~= all.take(j));
                assert(all.take(j + 1).last() == all[j]);
            }
            self.insert(k, v);
            proof {
                assert(self@ =~= old(self)@.union_prefer_right(pairs_map(all.take(j + 1))));
                assert(rest@ =~= all.skip(j + 1));
                j = j + 1;
            }
        }
        assert(all.take(j) =~= all);
    }

    /// The entries of the map, each key once.
    pub fn entries(&self) -> (r: &Vec<(String, V)>)
        ensures
            pairs_map(r@) == self@,
            keys_unique(r@),
    {
        proof {
            use_type_invariant(self);
        }
        &self.entries
    }

    /// The entries of the map, each key once, the map given up.
    pub fn into_entries(self) -> (r: Vec<(String, V)>)
        ensures
            pairs_map(r@) == self@,
            keys_unique(r@),
    {
        proof {
            use_type_invariant(&self);
        }
        self.entries
    }

    /// The map holding the entries of `v`; of two entries with one key, the later wins.
    pub fn from_entries(v: Vec<(String, V)>) -> (r: Self)
        ensures
            r@ == pairs_map(v@),
    {
        let ghost all = v@;
        let mut rest = v;
        let mut m = StrMap::new();
        let ghost mut j: int = 0;
        assert(all.take(0) =~= Seq::<(String, V)>::empty());
        assert(all.skip(0) =~= all);
        while rest.len() > 0
            invariant
                0 <= j <= all.len(),
                rest@ == all.skip(j),
                m@ == pairs_map(all.take(j)),
            decreases rest.len(),
        {
            let (k, x) = rest.remove(0);
            proof {
                assert(all[j] == (k, x));
                assert(all.take(j + 1).drop_last() =~= all.take(j));
            }
            m.insert(k, x);
            proof {
                assert(rest@ =~= all.skip(j + 1));
                j = j + 1;
            }
        }
        assert(all.take(j) =~= all);
        m
    }
}

} // verus!
