//! Association list from byte-string keys to values, with pairwise-distinct
//! keys. Backs the persisted code table, the per-address storage tables and
//! the native ledger model.

use vstd::prelude::*;
use crate::types::bytes_eq;

verus! {

/// The finite map an entry sequence denotes, later entries shadowing
/// earlier ones (well-formed lists have no shadowing).
pub open spec fn entries_as_map<V>(s: Seq<(Vec<u8>, V)>) -> Map<Seq<u8>, V>
    decreases s.len(),
{
    if s.len() == 0 {
        Map::empty()
    } else {
        entries_as_map(s.drop_last()).insert(s.last().0@, s.last().1)
    }
}

/// A key is in the map exactly when some entry carries it.
pub proof fn lemma_entries_as_map_contains<V>(s: Seq<(Vec<u8>, V)>, k: Seq<u8>)
    ensures
        entries_as_map(s).contains_key(k) <==> exists|i: int|
            0 <= i < s.len() && (#[trigger] s[i]).0@ == k,
    decreases s.len(),
{
    if s.len() > 0 {
        lemma_entries_as_map_contains(s.drop_last(), k);
        if s.last().0@ == k {
            assert(s[s.len() - 1].0@ == k);
        } else if entries_as_map(s).contains_key(k) {
            let i = choose|i: int| 0 <= i < s.drop_last().len() && (#[trigger] s.drop_last()[i]).0@ == k;
            assert(s[i].0@ == k);
        } else {
            assert forall|i: int| 0 <= i < s.len() && (#[trigger] s[i]).0@ == k implies false by {
                if i < s.len() - 1 {
                    assert(s.drop_last()[i].0@ == k);
                }
            }
        }
    }
}

/// With distinct keys, the map sends each entry's key to its value.
pub proof fn lemma_entries_as_map_index<V>(s: Seq<(Vec<u8>, V)>, i: int)
    requires
        forall|p: int, q: int| 0 <= p < q < s.len() ==> (#[trigger] s[p]).0@ != (#[trigger] s[q]).0@,
        0 <= i < s.len(),
    ensures
        entries_as_map(s).contains_key(s[i].0@),
        entries_as_map(s)[s[i].0@] == s[i].1,
    decreases s.len(),
{
    lemma_entries_as_map_contains(s, s[i].0@);
    if i < s.len() - 1 {
        assert(s.last().0@ != s[i].0@);
        assert(s.drop_last()[i] == s[i]);
        lemma_entries_as_map_index(s.drop_last(), i);
    }
}

/// With distinct keys, removing entry `i` removes exactly its key.
pub proof fn lemma_entries_as_map_remove<V>(s: Seq<(Vec<u8>, V)>, i: int)
    requires
        forall|p: int, q: int| 0 <= p < q < s.len() ==> (#[trigger] s[p]).0@ != (#[trigger] s[q]).0@,
        0 <= i < s.len(),
    ensures
        entries_as_map(s.remove(i)) =~= entries_as_map(s).remove(s[i].0@),
    decreases s.len(),
{
    if i == s.len() - 1 {
        assert(s.remove(i) =~= s.drop_last());
        lemma_entries_as_map_contains(s.drop_last(), s[i].0@);
        assert forall|j: int| 0 <= j < s.drop_last().len() implies (#[trigger] s.drop_last()[j]).0@
            != s[i].0@ by {
            assert(s[j] == s.drop_last()[j]);
        }
        assert(!entries_as_map(s.drop_last()).contains_key(s[i].0@));
        assert(entries_as_map(s.drop_last()) =~= entries_as_map(s.drop_last()).insert(
            s.last().0@,
            s.last().1,
        ).remove(s[i].0@));
    } else {
        let t = s.remove(i);
        assert(t.len() == s.len() - 1);
        assert(t.last() == s.last());
        assert(t.drop_last() =~= s.drop_last().remove(i));
        assert forall|p: int, q: int|
            0 <= p < q < s.drop_last().len() implies (#[trigger] s.drop_last()[p]).0@
            != (#[trigger] s.drop_last()[q]).0@ by {
            assert(s.drop_last()[p] == s[p]);
            assert(s.drop_last()[q] == s[q]);
        }
        lemma_entries_as_map_remove(s.drop_last(), i);
        assert(s.drop_last()[i] == s[i]);
        assert(entries_as_map(t) =~= entries_as_map(t.drop_last()).insert(t.last().0@, t.last().1));
        assert(s.last().0@ != s[i].0@);
        assert(entries_as_map(s.drop_last()).remove(s[i].0@).insert(s.last().0@, s.last().1) =~= entries_as_map(
            s.drop_last(),
        ).insert(s.last().0@, s.last().1).remove(s[i].0@));
    }
}

/// Association list with pairwise-distinct byte-string keys.
pub struct KvList<V> {
    pub entries: Vec<(Vec<u8>, V)>,
}

impl<V> KvList<V> {
    /// Keys are pairwise distinct.
    pub open spec fn wf(self) -> bool {
        forall|p: int, q: int|
            0 <= p < q < self.entries@.len() ==> (#[trigger] self.entries@[p]).0@
                != (#[trigger] self.entries@[q]).0@
    }

    /// The mathematical contents of the list.
    pub open spec fn as_map(self) -> Map<Seq<u8>, V> {
        entries_as_map(self.entries@)
    }

    /// Creates an empty list.
    pub fn new() -> (r: KvList<V>)
        ensures
            r.wf(),
            r.as_map() == Map::<Seq<u8>, V>::empty(),
    {
        KvList { entries: Vec::new() }
    }

    /// Index of the entry carrying key `k`, if any.
    fn find(&self, k: &Vec<u8>) -> (r: Option<usize>)
        ensures
            match r {
                Some(i) => i < self.entries@.len() && self.entries@[i as int].0@ == k@,
                None => forall|i: int|
                    0 <= i < self.entries@.len() ==> (#[trigger] self.entries@[i]).0@ != k@,
            },
    {
        let mut i: usize = 0;
        while i < self.entries.len()
            invariant
                i <= self.entries@.len(),
                forall|j: int| 0 <= j < i ==> (#[trigger] self.entries@[j]).0@ != k@,
            decreases self.entries@.len() - i,
        {
            let entry = &self.entries[i];
            if bytes_eq(&entry.0, k) {
                return Some(i);
            }
            i = i + 1;
        }
        None
    }

    /// The value under key `k`, if any.
    pub fn get(&self, k: &Vec<u8>) -> (r: Option<&V>)
        requires
            self.wf(),
        ensures
            match r {
                Some(v) => self.as_map().contains_key(k@) && *v == self.as_map()[k@],
                None => !self.as_map().contains_key(k@),
            },
    {
        proof {
            lemma_entries_as_map_contains(self.entries@, k@);
        }
        match self.find(k) {
            Some(i) => {
                proof {
                    lemma_entries_as_map_index(self.entries@, i as int);
                }
                Some(&self.entries[i].1)
            },
            None => None,
        }
    }

    /// Binds key `k` to `v`, replacing any previous binding.
    pub fn insert(&mut self, k: Vec<u8>, v: V)
        requires
            old(self).wf(),
        ensures
            final(self).wf(),
            final(self).as_map() == old(self).as_map().insert(k@, v),
    {
        let ghost k_view = k@;
        match self.find(&k) {
            Some(i) => {
                proof {
                    lemma_entries_as_map_remove(self.entries@, i as int);
                    lemma_entries_as_map_contains(self.entries@, k_view);
                }
                let _ = self.entries.remove(i);
                proof {
                    assert forall|j: int|
                        0 <= j < self.entries@.len() implies (#[trigger] self.entries@[j]).0@
                        != k_view by {
                        if j < i {
                            assert(old(self).entries@[j] == self.entries@[j]);
                        } else {
                            assert(old(self).entries@[j + 1] == self.entries@[j]);
                        }
                    }
                }
                self.entries.push((k, v));
                proof {
                    assert(self.entries@.drop_last() =~= old(self).entries@.remove(i as int));
                    assert(final(self).as_map() =~= old(self).as_map().insert(k_view, v));
                }
            },
            None => {
                proof {
                    lemma_entries_as_map_contains(self.entries@, k_view);
                }
                self.entries.push((k, v));
                proof {
                    assert(self.entries@.drop_last() =~= old(self).entries@);
                }
            },
        }
    }

    /// Removes the binding of key `k` and hands its value out, if any.
    pub fn take(&mut self, k: &Vec<u8>) -> (r: Option<V>)
        requires
            old(self).wf(),
        ensures
            final(self).wf(),
            final(self).as_map() == old(self).as_map().remove(k@),
            match r {
                Some(v) => old(self).as_map().contains_key(k@) && v == old(self).as_map()[k@],
                None => !old(self).as_map().contains_key(k@),
            },
    {
        proof {
            lemma_entries_as_map_contains(self.entries@, k@);
        }
        match self.find(k) {
            Some(i) => {
                proof {
                    lemma_entries_as_map_index(self.entries@, i as int);
                    lemma_entries_as_map_remove(self.entries@, i as int);
                }
                let entry = self.entries.remove(i);
                proof {
                    assert forall|p: int, q: int|
                        0 <= p < q < self.entries@.len() implies (#[trigger] self.entries@[p]).0@
                        != (#[trigger] self.entries@[q]).0@ by {
                        let pp: int = if p < i { p } else { p + 1 };
                        let qq: int = if q < i { q } else { q + 1 };
                        assert(self.entries@[p] == old(self).entries@[pp]);
                        assert(self.entries@[q] == old(self).entries@[qq]);
                    }
                }
                Some(entry.1)
            },
            None => {
                proof {
                    assert(final(self).as_map() =~= old(self).as_map().remove(k@));
                }
                None
            },
        }
    }

    /// Removes the binding of key `k`, if any.
    pub fn remove_key(&mut self, k: &Vec<u8>)
        requires
            old(self).wf(),
        ensures
            final(self).wf(),
            final(self).as_map() == old(self).as_map().remove(k@),
    {
        let _ = self.take(k);
    }
}

} // verus!
