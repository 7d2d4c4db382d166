//! A small verified key-value store backing the per-counterparty state:
//! an association vector with unique keys, viewed as a `Map` from key
//! views to values.

use vstd::prelude::*;

use crate::msgs::{CounterpartyId, OrderId, RequestId};

verus! {

/// Keys of the store: viewed as a character sequence, with an equality
/// test that agrees with the view.
pub trait MapKey: View<V = Seq<char>> + Sized {
    /// Whether two keys have the same view.
    fn key_eq(&self, other: &Self) -> (r: bool)
        ensures
            r == (self@ == other@),
    ;
}

impl MapKey for OrderId {
    fn key_eq(&self, other: &Self) -> (r: bool)
        ensures
            r == (self@ == other@),
    {
        self.0 == other.0
    }
}

impl MapKey for RequestId {
    fn key_eq(&self, other: &Self) -> (r: bool)
        ensures
            r == (self@ == other@),
    {
        self.0 == other.0
    }
}

impl MapKey for CounterpartyId {
    fn key_eq(&self, other: &Self) -> (r: bool)
        ensures
            r == (self@ == other@),
    {
        self.0 == other.0
    }
}

/// The map described by an association sequence; later entries win.
pub open spec fn kv_map<K: View<V = Seq<char>>, T>(entries: Seq<(K, T)>) -> Map<Seq<char>, T>
    decreases entries.len(),
{
    if entries.len() == 0 {
        Map::empty()
    } else {
        kv_map(entries.drop_last()).insert(entries.last().0@, entries.last().1)
    }
}

/// Whether the keys of an association sequence are pairwise distinct.
pub open spec fn kv_dupfree<K: View<V = Seq<char>>, T>(entries: Seq<(K, T)>) -> bool {
    forall|i: int, j: int|
        0 <= i < j < entries.len() ==> (#[trigger] entries[i]).0@ != (#[trigger] entries[j]).0@
}

/// A key is in the map exactly when some entry holds it.
pub proof fn lemma_kv_contains<K: View<V = Seq<char>>, T>(entries: Seq<(K, T)>, k: Seq<char>)
    ensures
        kv_map(entries).contains_key(k) <==> exists|i: int|
            0 <= i < entries.len() && (#[trigger] entries[i]).0@ == k,
    decreases entries.len(),
{
    if entries.len() > 0 {
        let prefix = entries.drop_last();
        let n = entries.len() - 1;
        lemma_kv_contains(prefix, k);
        if entries[n].0@ == k {
        } else {
            if kv_map(entries).contains_key(k) {
                let i = choose|i: int| 0 <= i < prefix.len() && (#[trigger] prefix[i]).0@ == k;
                assert(entries[i].0@ == k);
            }
            if exists|i: int| 0 <= i < entries.len() && (#[trigger] entries[i]).0@ == k {
                let i = choose|i: int| 0 <= i < entries.len() && (#[trigger] entries[i]).0@ == k;
                assert(prefix[i].0@ == k);
            }
        }
    }
}

/// Dropping the last entry keeps the keys distinct.
pub proof fn lemma_kv_dupfree_prefix<K: View<V = Seq<char>>, T>(entries: Seq<(K, T)>)
    requires
        kv_dupfree(entries),
        entries.len() > 0,
    ensures
        kv_dupfree(entries.drop_last()),
{
    let prefix = entries.drop_last();
    assert forall|i: int, j: int| 0 <= i < j < prefix.len() implies (#[trigger] prefix[i]).0@ != (
    #[trigger] prefix[j]).0@ by {
        assert(prefix[i] == entries[i] && prefix[j] == entries[j]);
    }
}

/// With distinct keys, the entry at an index gives the map's value at
/// its key.
pub proof fn lemma_kv_get<K: View<V = Seq<char>>, T>(entries: Seq<(K, T)>, i: int)
    requires
        kv_dupfree(entries),
        0 <= i < entries.len(),
    ensures
        kv_map(entries).contains_key(entries[i].0@),
        kv_map(entries)[entries[i].0@] == entries[i].1,
    decreases entries.len(),
{
    let prefix = entries.drop_last();
    let n = entries.len() - 1;
    if i < n {
        lemma_kv_dupfree_prefix(entries);
        lemma_kv_get(prefix, i);
        assert(prefix[i] == entries[i]);
        assert(entries[i].0@ != entries[n].0@);
    }
}

/// Removing the entry at an index removes its key from the map.
pub proof fn lemma_kv_remove<K: View<V = Seq<char>>, T>(entries: Seq<(K, T)>, i: int)
    requires
        kv_dupfree(entries),
        0 <= i < entries.len(),
    ensures
        kv_dupfree(entries.remove(i)),
        kv_map(entries.remove(i)) =~= kv_map(entries).remove(entries[i].0@),
    decreases entries.len(),
{
    let prefix = entries.drop_last();
    let n = entries.len() - 1;
    let cut = entries.remove(i);
    assert forall|p: int, q: int| 0 <= p < q < cut.len() implies (#[trigger] cut[p]).0@ != (
    #[trigger] cut[q]).0@ by {
        let p0 = if p < i { p } else { p + 1 };
        let q0 = if q < i { q } else { q + 1 };
        assert(cut[p] == entries[p0] && cut[q] == entries[q0]);
    }
    lemma_kv_dupfree_prefix(entries);
    if i == n {
        assert(cut =~= prefix);
        assert forall|j: int| 0 <= j < prefix.len() implies (#[trigger] prefix[j]).0@ != entries[
            n].0@ by {
            assert(prefix[j] == entries[j]);
        }
        lemma_kv_contains(prefix, entries[n].0@);
        assert(!kv_map(prefix).contains_key(entries[n].0@));
    } else {
        assert(cut.len() == n);
        assert(cut.drop_last() =~= prefix.remove(i));
        assert(cut.last() == entries[n]);
        lemma_kv_remove(prefix, i);
        assert(prefix[i] == entries[i]);
        assert(entries[i].0@ != entries[n].0@);
    }
}

/// Replacing the entry at an index with one of the same key overwrites
/// the map's value at that key.
pub proof fn lemma_kv_update<K: View<V = Seq<char>>, T>(entries: Seq<(K, T)>, i: int, p: (K, T))
    requires
        kv_dupfree(entries),
        0 <= i < entries.len(),
        p.0@ == entries[i].0@,
    ensures
        kv_dupfree(entries.update(i, p)),
        kv_map(entries.update(i, p)) =~= kv_map(entries).insert(p.0@, p.1),
    decreases entries.len(),
{
    let prefix = entries.drop_last();
    let n = entries.len() - 1;
    let upd = entries.update(i, p);
    assert forall|a: int, b: int| 0 <= a < b < upd.len() implies (#[trigger] upd[a]).0@ != (
    #[trigger] upd[b]).0@ by {
        assert(upd[a].0@ == entries[a].0@ && upd[b].0@ == entries[b].0@);
    }
    lemma_kv_dupfree_prefix(entries);
    if i == n {
        assert(upd.drop_last() =~= prefix);
        assert(upd.last() == p);
    } else {
        assert(upd.drop_last() =~= prefix.update(i, p));
        assert(upd.last() == entries[n]);
        lemma_kv_update(prefix, i, p);
        assert(prefix[i] == entries[i]);
        assert(entries[i].0@ != entries[n].0@);
    }
}

/// An association vector with pairwise-distinct keys, the store behind
/// the per-counterparty state.
pub struct KvVec<K, T> {
    entries: Vec<(K, T)>,
}

impl<K: MapKey, T> View for KvVec<K, T> {
    type V = Map<Seq<char>, T>;

    closed spec fn view(&self) -> Map<Seq<char>, T> {
        kv_map(self.entries@)
    }
}

impl<K: MapKey, T> KvVec<K, T> {
    /// The store's invariant: its keys are pairwise distinct.
    pub closed spec fn wf(&self) -> bool {
        kv_dupfree(self.entries@)
    }

    /// An empty store.
    pub fn new() -> (r: Self)
        ensures
            r.wf(),
            r@ =~= Map::<Seq<char>, T>::empty(),
    {
        KvVec { entries: Vec::new() }
    }

    /// The index holding a key, if any.
    fn find(&self, key: &K) -> (r: Option<usize>)
        ensures
            match r {
                Some(i) => i < self.entries@.len() && self.entries@[i as int].0@ == key@,
                None => forall|j: int|
                    0 <= j < self.entries@.len() ==> (#[trigger] self.entries@[j]).0@ != key@,
            },
    {
        let mut i: usize = 0;
        while i < self.entries.len()
            invariant
                i <= self.entries@.len(),
                forall|j: int| 0 <= j < i ==> (#[trigger] self.entries@[j]).0@ != key@,
            decreases self.entries@.len() - i,
        {
            if self.entries[i].0.key_eq(key) {
                return Some(i);
            }
            i = i + 1;
        }
        None
    }

    /// The value held for a key, if any.
    pub fn get(&self, key: &K) -> (r: Option<&T>)
        requires
            self.wf(),
        ensures
            match r {
                Some(v) => self@.contains_key(key@) && *v == self@[key@],
                None => !self@.contains_key(key@),
            },
    {
        match self.find(key) {
            Some(i) => {
                proof {
                    lemma_kv_get(self.entries@, i as int);
                }
                Some(&self.entries[i].1)
            },
            None => {
                proof {
                    lemma_kv_contains(self.entries@, key@);
                }
                None
            },
        }
    }

    /// Binds a key to a value, replacing any earlier binding.
    pub fn insert(&mut self, key: K, value: T)
        requires
            old(self).wf(),
        ensures
            final(self).wf(),
            final(self)@ =~= old(self)@.insert(key@, value),
    {
        let ghost e0 = self.entries@;
        match self.find(&key) {
            Some(i) => {
                proof {
                    lemma_kv_update(e0, i as int, (key, value));
                }
                self.entries.set(i, (key, value));
            },
            None => {
                self.entries.push((key, value));
                proof {
                    assert(self.entries@.drop_last() =~= e0);
                    lemma_kv_contains(e0, key@);
                    assert forall|p: int, q: int|
                        0 <= p < q < self.entries@.len() implies (#[trigger] self.entries@[p]).0@
                        != (#[trigger] self.entries@[q]).0@ by {
                        if q < self.entries@.len() - 1 {
                            assert(self.entries@[p] == e0[p] && self.entries@[q] == e0[q]);
                        } else {
                            assert(self.entries@[p] == e0[p]);
                        }
                    }
                }
            },
        }
    }

    /// Removes and returns the value held for a key, if any.
    pub fn take(&mut self, key: &K) -> (r: Option<T>)
        requires
            old(self).wf(),
        ensures
            final(self).wf(),
            match r {
                Some(v) => old(self)@.contains_key(key@) && v == old(self)@[key@] && final(self)@
                    =~= old(self)@.remove(key@),
                None => !old(self)@.contains_key(key@) && final(self)@ == old(self)@,
            },
    {
        let ghost e0 = self.entries@;
        match self.find(key) {
            Some(i) => {
                proof {
                    lemma_kv_get(e0, i as int);
                    lemma_kv_remove(e0, i as int);
                }
                let pair = self.entries.remove(i);
                Some(pair.1)
            },
            None => {
                proof {
                    lemma_kv_contains(e0, key@);
                }
                None
            },
        }
    }

    /// Removes any binding of a key.
    pub fn remove(&mut self, key: &K)
        requires
            old(self).wf(),
        ensures
            final(self).wf(),
            final(self)@ =~= old(self)@.remove(key@),
    {
        let r = self.take(key);
        proof {
            if r is None {
                assert(old(self)@.remove(key@) =~= old(self)@);
            }
        }
    }
}

} // verus!
