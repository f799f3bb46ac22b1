//! Keyed record store.
//!
//! The engine keeps every record family (documents, powers, running maxima,
//! indices, ...) in a [`KvMap`]: an association list from a composite numeric
//! key to a record, with distinct keys.  Its view is a `Map<StoreKey, V>`,
//! and every operation is specified exactly against that view.

use vstd::prelude::*;

verus! {

/// Composite lookup key.  Families keyed by fewer than three components
/// leave the remaining components zero.
#[derive(Clone, Copy, PartialEq, Eq, Structural, Debug)]
pub struct StoreKey {
    pub k1: u64,
    pub k2: u64,
    pub k3: u64,
}

/// A map from [`StoreKey`] to `V`, stored as an association list whose keys
/// are pairwise distinct.
pub struct KvMap<V> {
    entries: Vec<(StoreKey, V)>,
}

/// The map denoted by an entry list: later entries win, though under
/// [`distinct_keys`] the order never matters.
pub closed spec fn entry_map<V>(s: Seq<(StoreKey, V)>) -> Map<StoreKey, V>
    decreases s.len(),
{
    if s.len() == 0 {
        Map::empty()
    } else {
        entry_map(s.drop_last()).insert(s.last().0, s.last().1)
    }
}

pub closed spec fn distinct_keys<V>(s: Seq<(StoreKey, V)>) -> bool {
    forall|i: int, j: int|
        0 <= i < j < s.len() ==> (#[trigger] s[i]).0 != (#[trigger] s[j]).0
}

proof fn lemma_entry_map_domain<V>(s: Seq<(StoreKey, V)>, k: StoreKey)
    ensures
        entry_map(s).contains_key(k) <==> exists|i: int|
            0 <= i < s.len() && (#[trigger] s[i]).0 == k,
    decreases s.len(),
{
    if s.len() > 0 {
        lemma_entry_map_domain(s.drop_last(), k);
        assert(forall|i: int|
            0 <= i < s.len() - 1 ==> (#[trigger] s.drop_last()[i]) == s[i]);
        if s.last().0 == k {
            assert(s[s.len() - 1].0 == k);
        } else if entry_map(s).contains_key(k) {
            let i = choose|i: int| 0 <= i < s.len() - 1 && (#[trigger] s.drop_last()[i]).0 == k;
            assert(s[i].0 == k);
        } else if exists|i: int| 0 <= i < s.len() && (#[trigger] s[i]).0 == k {
            let i = choose|i: int| 0 <= i < s.len() && (#[trigger] s[i]).0 == k;
            assert(i < s.len() - 1);
            assert(s.drop_last()[i].0 == k);
        }
    }
}

proof fn lemma_entry_map_value<V>(s: Seq<(StoreKey, V)>, i: int)
    requires
        distinct_keys(s),
        0 <= i < s.len(),
    ensures
        entry_map(s).contains_key(s[i].0),
        entry_map(s)[s[i].0] == s[i].1,
    decreases s.len(),
{
    if i == s.len() - 1 {
    } else {
        assert(forall|j: int|
            0 <= j < s.len() - 1 ==> (#[trigger] s.drop_last()[j]) == s[j]);
        lemma_entry_map_value(s.drop_last(), i);
        assert(s[i].0 != s.last().0);
    }
}

proof fn lemma_entry_map_update<V>(s: Seq<(StoreKey, V)>, i: int, v: V)
    requires
        distinct_keys(s),
        0 <= i < s.len(),
    ensures
        entry_map(s.update(i, (s[i].0, v))) == entry_map(s).insert(s[i].0, v),
        distinct_keys(s.update(i, (s[i].0, v))),
    decreases s.len(),
{
    let k = s[i].0;
    let t = s.update(i, (k, v));
    assert(forall|j: int| 0 <= j < s.len() && j != i ==> (#[trigger] t[j]) == s[j]);
    assert(distinct_keys(t));
    if i == s.len() - 1 {
        assert(t.drop_last() =~= s.drop_last());
        assert(entry_map(t) == entry_map(s.drop_last()).insert(k, v));
        assert(entry_map(s).insert(k, v) =~= entry_map(s.drop_last()).insert(k, v));
    } else {
        assert(t.drop_last() =~= s.drop_last().update(i, (k, v)));
        assert(forall|j: int|
            0 <= j < s.len() - 1 ==> (#[trigger] s.drop_last()[j]) == s[j]);
        lemma_entry_map_update(s.drop_last(), i, v);
        assert(t.last() == s.last());
        assert(entry_map(t) == entry_map(s.drop_last()).insert(k, v).insert(s.last().0, s.last().1));
        assert(s.last().0 != k);
        assert(entry_map(s.drop_last()).insert(k, v).insert(s.last().0, s.last().1)
            =~= entry_map(s.drop_last()).insert(s.last().0, s.last().1).insert(k, v));
    }
}

proof fn lemma_entry_map_push<V>(s: Seq<(StoreKey, V)>, k: StoreKey, v: V)
    ensures
        entry_map(s.push((k, v))) == entry_map(s).insert(k, v),
{
    assert(s.push((k, v)).drop_last() =~= s);
    assert(s.push((k, v)).last() == (k, v));
}

proof fn lemma_entry_map_remove<V>(s: Seq<(StoreKey, V)>, i: int)
    requires
        distinct_keys(s),
        0 <= i < s.len(),
    ensures
        entry_map(s.remove(i)) == entry_map(s).remove(s[i].0),
        distinct_keys(s.remove(i)),
    decreases s.len(),
{
    let k = s[i].0;
    let t = s.remove(i);
    assert(forall|j: int| 0 <= j < i ==> (#[trigger] t[j]) == s[j]);
    assert(forall|j: int| i <= j < s.len() - 1 ==> (#[trigger] t[j]) == s[j + 1]);
    assert forall|p: int, q: int| 0 <= p < q < t.len() implies (#[trigger] t[p]).0 != (#[trigger] t[q]).0 by {
        let sp = if p < i { p } else { p + 1 };
        let sq = if q < i { q } else { q + 1 };
        assert(t[p] == s[sp]);
        assert(t[q] == s[sq]);
    }
    if i == s.len() - 1 {
        assert(t =~= s.drop_last());
        lemma_entry_map_domain(s.drop_last(), k);
        assert(forall|j: int|
            0 <= j < s.len() - 1 ==> (#[trigger] s.drop_last()[j]) == s[j]);
        assert(!entry_map(s.drop_last()).contains_key(k));
        assert(entry_map(s).remove(k) =~= entry_map(s.drop_last()));
    } else {
        assert(forall|j: int|
            0 <= j < s.len() - 1 ==> (#[trigger] s.drop_last()[j]) == s[j]);
        lemma_entry_map_remove(s.drop_last(), i);
        assert(t.drop_last() =~= s.drop_last().remove(i));
        assert(t.last() == s.last());
        assert(entry_map(t) == entry_map(s.drop_last()).remove(k).insert(s.last().0, s.last().1));
        assert(s.last().0 != k);
        assert(entry_map(s.drop_last()).remove(k).insert(s.last().0, s.last().1)
            =~= entry_map(s.drop_last()).insert(s.last().0, s.last().1).remove(k));
    }
}

impl<V> View for KvMap<V> {
    type V = Map<StoreKey, V>;

    closed spec fn view(&self) -> Map<StoreKey, V> {
        entry_map(self.entries@)
    }
}

impl<V> KvMap<V> {
    /// All keys of the underlying entry list are distinct.
    pub closed spec fn wf(&self) -> bool {
        distinct_keys(self.entries@)
    }

    pub fn new() -> (r: Self)
        ensures
            r.wf(),
            r@ == Map::<StoreKey, V>::empty(),
    {
        KvMap { entries: Vec::new() }
    }

    pub fn contains(&self, k: StoreKey) -> (r: bool)
        requires
            self.wf(),
        ensures
            r == self@.contains_key(k),
    {
        let n = self.entries.len();
        let mut i: usize = 0;
        while i < n
            invariant
                n == self.entries.len(),
                0 <= i <= n,
                forall|j: int| 0 <= j < i ==> (#[trigger] self.entries@[j]).0 != k,
            decreases n - i,
        {
            if self.entries[i].0 == k {
                proof {
                    lemma_entry_map_domain(self.entries@, k);
                }
                return true;
            }
            i += 1;
        }
        proof {
            lemma_entry_map_domain(self.entries@, k);
        }
        false
    }

    pub fn get(&self, k: StoreKey) -> (r: Option<&V>)
        requires
            self.wf(),
        ensures
            match r {
                Some(v) => self@.contains_key(k) && *v == self@[k],
                None => !self@.contains_key(k),
            },
    {
        let n = self.entries.len();
        let mut i: usize = 0;
        while i < n
            invariant
                self.wf(),
                n == self.entries.len(),
                0 <= i <= n,
                forall|j: int| 0 <= j < i ==> (#[trigger] self.entries@[j]).0 != k,
            decreases n - i,
        {
            if self.entries[i].0 == k {
                proof {
                    lemma_entry_map_value(self.entries@, i as int);
                }
                return Some(&self.entries[i].1);
            }
            i += 1;
        }
        proof {
            lemma_entry_map_domain(self.entries@, k);
        }
        None
    }

    pub fn insert(&mut self, k: StoreKey, v: V)
        requires
            old(self).wf(),
        ensures
            final(self).wf(),
            final(self)@ == old(self)@.insert(k, v),
    {
        let n = self.entries.len();
        let mut i: usize = 0;
        while i < n
            invariant
                self == old(self),
                self.wf(),
                n == self.entries.len(),
                0 <= i <= n,
                forall|j: int| 0 <= j < i ==> (#[trigger] self.entries@[j]).0 != k,
            decreases n - i,
        {
            if self.entries[i].0 == k {
                proof {
                    lemma_entry_map_update(self.entries@, i as int, v);
                }
                self.entries.set(i, (k, v));
                return;
            }
            i += 1;
        }
        proof {
            lemma_entry_map_push(self.entries@, k, v);
            lemma_entry_map_domain(self.entries@, k);
        }
        self.entries.push((k, v));
        assert(forall|j: int|
            0 <= j < old(self).entries@.len() ==> (#[trigger] self.entries@[j])
                == old(self).entries@[j]);
    }

    pub fn remove(&mut self, k: StoreKey) -> (r: Option<V>)
        requires
            old(self).wf(),
        ensures
            final(self).wf(),
            final(self)@ == old(self)@.remove(k),
            match r {
                Some(v) => old(self)@.contains_key(k) && v == old(self)@[k],
                None => !old(self)@.contains_key(k) && final(self)@ == old(self)@,
            },
    {
        let n = self.entries.len();
        let mut i: usize = 0;
        while i < n
            invariant
                self == old(self),
                self.wf(),
                n == self.entries.len(),
                0 <= i <= n,
                forall|j: int| 0 <= j < i ==> (#[trigger] self.entries@[j]).0 != k,
            decreases n - i,
        {
            if self.entries[i].0 == k {
                proof {
                    lemma_entry_map_value(self.entries@, i as int);
                    lemma_entry_map_remove(self.entries@, i as int);
                }
                let (_, v) = self.entries.remove(i);
                return Some(v);
            }
            i += 1;
        }
        proof {
            lemma_entry_map_domain(self.entries@, k);
            assert(old(self)@.remove(k) =~= old(self)@);
        }
        None
    }
}

} // verus!
