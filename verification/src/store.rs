//! A small verified key-value store over a vector of entries with distinct
//! keys, viewed as a `Map`.  The account tree and per-account balance tables
//! are built on it.

use vstd::prelude::*;

verus! {

/// The map a sequence of entries denotes; later entries win, and under the
/// distinct-keys invariant the order never matters.
pub open spec fn seq_map<V>(s: Seq<(u64, V)>) -> Map<u64, V>
    decreases s.len(),
{
    if s.len() == 0 {
        Map::empty()
    } else {
        seq_map(s.drop_last()).insert(s.last().0, s.last().1)
    }
}

/// A key of some entry.
pub open spec fn seq_has_key<V>(s: Seq<(u64, V)>, k: u64) -> bool {
    exists|i: int| 0 <= i < s.len() && (#[trigger] s[i]).0 == k
}

pub proof fn lemma_seq_map_domain<V>(s: Seq<(u64, V)>, k: u64)
    ensures
        seq_map(s).contains_key(k) <==> seq_has_key(s, k),
    decreases s.len(),
{
    if s.len() > 0 {
        lemma_seq_map_domain(s.drop_last(), k);
        if s.last().0 == k {
            assert((s[s.len() - 1]).0 == k);
        } else {
            if seq_has_key(s.drop_last(), k) {
                let i = choose|i: int|
                    0 <= i < s.drop_last().len() && (#[trigger] s.drop_last()[i]).0 == k;
                assert((s[i]).0 == k);
            }
            if seq_has_key(s, k) {
                let i = choose|i: int| 0 <= i < s.len() && (#[trigger] s[i]).0 == k;
                assert(0 <= i < s.len() - 1);
                assert((s.drop_last()[i]).0 == k);
            }
        }
    }
}

/// Under distinct keys, the entry at any index gives the map's value at its
/// key.
pub proof fn lemma_seq_map_index<V>(s: Seq<(u64, V)>, i: int)
    requires
        0 <= i < s.len(),
        forall|a: int, b: int|
            0 <= a < b < s.len() ==> (#[trigger] s[a]).0 != (#[trigger] s[b]).0,
    ensures
        seq_map(s).contains_key(s[i].0),
        seq_map(s)[s[i].0] == s[i].1,
    decreases s.len(),
{
    if i == s.len() - 1 {
        assert(s.last() == s[i]);
    } else {
        assert(forall|a: int, b: int|
            0 <= a < b < s.drop_last().len() ==> (#[trigger] s.drop_last()[a]).0 != (
            #[trigger] s.drop_last()[b]).0);
        lemma_seq_map_index(s.drop_last(), i);
        assert(s.drop_last()[i] == s[i]);
        assert(s[i].0 != s.last().0);
    }
}

/// A vector of key-value entries with pairwise distinct keys.
#[derive(Debug)]
pub struct KeyedVec<V> {
    pub entries: Vec<(u64, V)>,
}

impl<V> KeyedVec<V> {
    /// The distinct-keys invariant.
    pub open spec fn wf(self) -> bool {
        forall|a: int, b: int|
            0 <= a < b < self.entries@.len() ==> (#[trigger] self.entries@[a]).0 != (
            #[trigger] self.entries@[b]).0
    }

    pub open spec fn view(self) -> Map<u64, V> {
        seq_map(self.entries@)
    }

    pub fn new() -> (r: KeyedVec<V>)
        ensures
            r.wf(),
            r@ == Map::<u64, V>::empty(),
    {
        KeyedVec { entries: Vec::new() }
    }

    /// The value stored under `k`, if any.
    pub fn get(&self, k: u64) -> (r: Option<&V>)
        requires
            self.wf(),
        ensures
            match r {
                Some(v) => self@.contains_key(k) && *v == self@[k],
                None => !self@.contains_key(k),
            },
    {
        let n = self.entries.len();
        let mut i: usize = 0;
        while i < n
            invariant
                self.wf(),
                n == self.entries@.len(),
                i <= n,
                forall|j: int| 0 <= j < i ==> (#[trigger] self.entries@[j]).0 != k,
            decreases n - i,
        {
            if self.entries[i].0 == k {
                proof {
                    lemma_seq_map_index(self.entries@, i as int);
                }
                return Some(&self.entries[i].1);
            }
            i = i + 1;
        }
        proof {
            lemma_seq_map_domain(self.entries@, k);
        }
        None
    }

    /// Stores `v` under `k`, replacing any previous value.
    pub fn insert(&mut self, k: u64, v: V)
        requires
            old(self).wf(),
        ensures
            final(self).wf(),
            final(self)@ == old(self)@.insert(k, v),
    {
        let n = self.entries.len();
        let mut i: usize = 0;
        while i < n
            invariant
                self.wf(),
                self == old(self),
                n == self.entries@.len(),
                i <= n,
                forall|j: int| 0 <= j < i ==> (#[trigger] self.entries@[j]).0 != k,
            decreases n - i,
        {
            if self.entries[i].0 == k {
                proof {
                    lemma_seq_map_replace(self.entries@, i as int, v);
                }
                self.entries.set(i, (k, v));
                return ;
            }
            i = i + 1;
        }
        proof {
            lemma_seq_map_domain(self.entries@, k);
        }
        self.entries.push((k, v));
        proof {
            assert(self.entries@.drop_last() =~= old(self).entries@);
        }
    }
}

impl<V> KeyedVec<V> {
    /// Takes the value stored under `k` out, if any.
    pub fn remove(&mut self, k: u64) -> (r: Option<V>)
        requires
            old(self).wf(),
        ensures
            final(self).wf(),
            match r {
                Some(v) => old(self)@.contains_key(k) && v == old(self)@[k] && final(self)@ == old(
                    self,
                )@.remove(k),
                None => !old(self)@.contains_key(k) && final(self)@ == old(self)@,
            },
    {
        let n = self.entries.len();
        let mut i: usize = 0;
        while i < n
            invariant
                self.wf(),
                self == old(self),
                n == self.entries@.len(),
                i <= n,
                forall|j: int| 0 <= j < i ==> (#[trigger] self.entries@[j]).0 != k,
            decreases n - i,
        {
            if self.entries[i].0 == k {
                proof {
                    lemma_seq_map_index(self.entries@, i as int);
                    lemma_seq_map_remove(self.entries@, i as int);
                }
                let entry = self.entries.remove(i);
                return Some(entry.1);
            }
            i = i + 1;
        }
        proof {
            lemma_seq_map_domain(self.entries@, k);
        }
        None
    }
}

/// Removing the entry at the index of key `k` removes `k` from the map and
/// nothing else.
proof fn lemma_seq_map_remove<V>(s: Seq<(u64, V)>, i: int)
    requires
        0 <= i < s.len(),
        forall|a: int, b: int|
            0 <= a < b < s.len() ==> (#[trigger] s[a]).0 != (#[trigger] s[b]).0,
    ensures
        seq_map(s.remove(i)) == seq_map(s).remove(s[i].0),
        forall|a: int, b: int|
            0 <= a < b < s.remove(i).len() ==> (#[trigger] s.remove(i)[a]).0 != (
            #[trigger] s.remove(i)[b]).0,
    decreases s.len(),
{
    let t = s.remove(i);
    if i == s.len() - 1 {
        assert(t =~= s.drop_last());
        lemma_seq_map_domain(s.drop_last(), s[i].0);
        assert(!seq_has_key(s.drop_last(), s[i].0));
        assert(seq_map(s.remove(i)) =~= seq_map(s).remove(s[i].0));
    } else {
        assert(forall|a: int, b: int|
            0 <= a < b < s.drop_last().len() ==> (#[trigger] s.drop_last()[a]).0 != (
            #[trigger] s.drop_last()[b]).0);
        lemma_seq_map_remove(s.drop_last(), i);
        assert(t.drop_last() =~= s.drop_last().remove(i));
        assert(t.last() == s.last());
        assert(seq_map(t) == seq_map(s.drop_last().remove(i)).insert(s.last().0, s.last().1));
        assert(s[i].0 != s.last().0);
        assert(seq_map(s.drop_last()).remove(s[i].0).insert(s.last().0, s.last().1)
            =~= seq_map(s).remove(s[i].0));
    }
}

/// Replacing the entry at the index of key `k` updates the map at `k` alone.
proof fn lemma_seq_map_replace<V>(s: Seq<(u64, V)>, i: int, v: V)
    requires
        0 <= i < s.len(),
        forall|a: int, b: int|
            0 <= a < b < s.len() ==> (#[trigger] s[a]).0 != (#[trigger] s[b]).0,
    ensures
        seq_map(s.update(i, (s[i].0, v))) == seq_map(s).insert(s[i].0, v),
        forall|a: int, b: int|
            0 <= a < b < s.len() ==> (#[trigger] s.update(i, (s[i].0, v))[a]).0 != (
            #[trigger] s.update(i, (s[i].0, v))[b]).0,
    decreases s.len(),
{
    let t = s.update(i, (s[i].0, v));
    if i == s.len() - 1 {
        assert(t.drop_last() =~= s.drop_last());
        assert(t.last() == (s[i].0, v));
        assert(seq_map(t) == seq_map(s.drop_last()).insert(s[i].0, v));
        assert(seq_map(s).insert(s[i].0, v) == seq_map(s.drop_last()).insert(
            s.last().0,
            s.last().1,
        ).insert(s[i].0, v));
        assert(seq_map(s.drop_last()).insert(s.last().0, s.last().1).insert(s[i].0, v)
            =~= seq_map(s.drop_last()).insert(s[i].0, v));
    } else {
        assert(forall|a: int, b: int|
            0 <= a < b < s.drop_last().len() ==> (#[trigger] s.drop_last()[a]).0 != (
            #[trigger] s.drop_last()[b]).0);
        lemma_seq_map_replace(s.drop_last(), i, v);
        assert(t.drop_last() =~= s.drop_last().update(i, (s[i].0, v)));
        assert(t.last() == s.last());
        // the replaced key differs from the last key, so the two inserts
        // commute
        assert(s[i].0 != s.last().0);
        assert(seq_map(t) == seq_map(s.drop_last()).insert(s[i].0, v).insert(
            s.last().0,
            s.last().1,
        ));
        assert(seq_map(s.drop_last()).insert(s[i].0, v).insert(s.last().0, s.last().1)
            =~= seq_map(s.drop_last()).insert(s.last().0, s.last().1).insert(s[i].0, v));
    }
}

} // verus!
