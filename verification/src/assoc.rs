//! A small finite map kept as a list of entries with distinct keys. It
//! stands where the bookkeeping needs a map whose keys are records.

use vstd::prelude::*;

verus! {

/// A type whose values can be told apart in executable code.
pub trait Key: Copy {
    /// Whether the two keys are the same key.
    fn same(&self, other: &Self) -> (b: bool)
        ensures
            b == (*self == *other),
    ;
}

/// A finite map from `K` to `V`. Its view is the map it stands for.
#[derive(Clone, Debug)]
pub struct AssocMap<K: Key, V> {
    pub entries: Vec<(K, V)>,
}

/// Whether `k` is the key of one of `entries`.
pub open spec fn has_key<K, V>(entries: Seq<(K, V)>, k: K) -> bool {
    exists|i: int| 0 <= i < entries.len() && #[trigger] entries[i].0 == k
}

/// Where `k` stands among `entries`, if it is the key of one of them.
pub open spec fn position<K, V>(entries: Seq<(K, V)>, k: K) -> int {
    choose|i: int| 0 <= i < entries.len() && #[trigger] entries[i].0 == k
}

/// No key stands twice among `entries`.
pub open spec fn distinct_keys<K, V>(entries: Seq<(K, V)>) -> bool {
    forall|i: int, j: int|
        0 <= i < j < entries.len() ==> (#[trigger] entries[i]).0 != (#[trigger] entries[j]).0
}

/// The map that `entries` stand for.
pub open spec fn entries_map<K, V>(entries: Seq<(K, V)>) -> Map<K, V> {
    Map::new(|k: K| has_key(entries, k), |k: K| entries[position(entries, k)].1)
}

/// Where keys are distinct, an entry is what the map holds under its key.
pub proof fn lemma_entry<K, V>(entries: Seq<(K, V)>, i: int)
    requires
        distinct_keys(entries),
        0 <= i < entries.len(),
    ensures
        has_key(entries, entries[i].0),
        position(entries, entries[i].0) == i,
        entries_map(entries).contains_key(entries[i].0),
        entries_map(entries)[entries[i].0] == entries[i].1,
{
    let k = entries[i].0;
    let p = position(entries, k);
    assert(0 <= p < entries.len() && entries[p].0 == k);
    if p < i {
        assert(entries[p].0 != entries[i].0);
    } else if i < p {
        assert(entries[i].0 != entries[p].0);
    }
}

impl<K: Key, V> View for AssocMap<K, V> {
    type V = Map<K, V>;

    open spec fn view(&self) -> Map<K, V> {
        entries_map(self.entries@)
    }
}

impl<K: Key, V> AssocMap<K, V> {
    /// The invariant: no key stands twice.
    pub open spec fn wf(&self) -> bool {
        distinct_keys(self.entries@)
    }

    /// The empty map.
    pub fn new() -> (m: Self)
        ensures
            m.wf(),
            m@ == Map::<K, V>::empty(),
    {
        let m = AssocMap { entries: Vec::new() };
        assert(m@ =~= Map::<K, V>::empty());
        m
    }

    /// The number of keys.
    pub fn len(&self) -> (n: usize)
        requires
            self.wf(),
        ensures
            n == self@.len(),
            self@.dom().finite(),
    {
        proof {
            lemma_len(self.entries@);
        }
        self.entries.len()
    }

    /// Where `k` stands, if it is a key of the map.
    fn find(&self, k: &K) -> (at: Option<usize>)
        requires
            self.wf(),
        ensures
            match at {
                Some(i) => i < self.entries@.len() && self.entries@[i as int].0 == *k
                    && self@.contains_key(*k) && self@[*k] == self.entries@[i as int].1,
                None => !self@.contains_key(*k) && !has_key(self.entries@, *k),
            },
    {
        let n: usize = self.entries.len();
        let mut i: usize = 0;
        while i < n
            invariant
                self.wf(),
                n == self.entries@.len(),
                i <= n,
                forall|j: int| 0 <= j < i ==> (#[trigger] self.entries@[j]).0 != *k,
            decreases n - i,
        {
            if self.entries[i].0.same(k) {
                proof {
                    lemma_entry(self.entries@, i as int);
                }
                return Some(i);
            }
            i += 1;
        }
        None
    }

    /// What the map holds under `k`, if anything.
    pub fn get(&self, k: &K) -> (value: Option<&V>)
        requires
            self.wf(),
        ensures
            match value {
                Some(v) => self@.contains_key(*k) && *v == self@[*k],
                None => !self@.contains_key(*k),
            },
    {
        match self.find(k) {
            Some(i) => Some(&self.entries[i].1),
            None => None,
        }
    }

    /// Puts `v` under `k` and hands back what stood there before.
    pub fn insert(&mut self, k: K, v: V) -> (previous: Option<V>)
        requires
            old(self).wf(),
        ensures
            final(self).wf(),
            final(self)@ == old(self)@.insert(k, v),
            match previous {
                Some(p) => old(self)@.contains_key(k) && p == old(self)@[k],
                None => !old(self)@.contains_key(k),
            },
    {
        let ghost before = self.entries@;
        match self.find(&k) {
            Some(i) => {
                let (_, p) = self.entries.remove(i);
                self.entries.push((k, v));
                proof {
                    lemma_replaced(before, i as int, k, v);
                }
                Some(p)
            },
            None => {
                self.entries.push((k, v));
                proof {
                    lemma_pushed(before, k, v);
                }
                None
            },
        }
    }

    /// Takes `k` out of the map and hands back what stood under it.
    pub fn remove(&mut self, k: &K) -> (previous: Option<V>)
        requires
            old(self).wf(),
        ensures
            final(self).wf(),
            final(self)@ == old(self)@.remove(*k),
            match previous {
                Some(p) => old(self)@.contains_key(*k) && p == old(self)@[*k],
                None => !old(self)@.contains_key(*k),
            },
    {
        let ghost before = self.entries@;
        match self.find(k) {
            Some(i) => {
                let (_, p) = self.entries.remove(i);
                proof {
                    lemma_removed(before, i as int);
                }
                Some(p)
            },
            None => {
                assert(self@ =~= old(self)@.remove(*k));
                None
            },
        }
    }

    /// The keys of the map, each once, oldest entry first.
    pub fn keys(&self) -> (keys: Vec<K>)
        requires
            self.wf(),
        ensures
            keys@.len() == self.entries@.len(),
            forall|i: int| 0 <= i < keys@.len() ==> keys@[i] == (#[trigger] self.entries@[i]).0,
            forall|k: K| keys@.contains(k) <==> self@.contains_key(k),
            keys@.no_duplicates(),
    {
        let mut keys: Vec<K> = Vec::new();
        let n: usize = self.entries.len();
        let mut i: usize = 0;
        while i < n
            invariant
                n == self.entries@.len(),
                i <= n,
                keys@.len() == i,
                forall|j: int| 0 <= j < i ==> keys@[j] == (#[trigger] self.entries@[j]).0,
            decreases n - i,
        {
            keys.push(self.entries[i].0);
            i += 1;
        }
        proof {
            assert forall|k: K| keys@.contains(k) <==> self@.contains_key(k) by {
                if keys@.contains(k) {
                    let j = choose|j: int| 0 <= j < keys@.len() && keys@[j] == k;
                    assert(self.entries@[j].0 == k);
                }
                if self@.contains_key(k) {
                    let j = position(self.entries@, k);
                    assert(keys@[j] == k);
                }
            }
            assert forall|a: int, b: int|
                0 <= a < keys@.len() && 0 <= b < keys@.len() && a != b implies keys@[a]
                != keys@[b] by {
                if a < b {
                    assert(self.entries@[a].0 != self.entries@[b].0);
                } else {
                    assert(self.entries@[b].0 != self.entries@[a].0);
                }
            }
        }
        keys
    }
}

impl<K: Key, V: Copy> AssocMap<K, V> {
    /// A copy with the same entries.
    pub fn duplicate(&self) -> (copy: Self)
        ensures
            copy.entries@ == self.entries@,
    {
        let mut copy = AssocMap { entries: Vec::new() };
        let n: usize = self.entries.len();
        let mut i: usize = 0;
        while i < n
            invariant
                n == self.entries@.len(),
                i <= n,
                copy.entries@ =~= self.entries@.take(i as int),
            decreases n - i,
        {
            copy.entries.push((self.entries[i].0, self.entries[i].1));
            i += 1;
        }
        assert(self.entries@.take(n as int) =~= self.entries@);
        copy
    }
}

/// A list of entries with distinct keys stands for a map of as many keys.
pub proof fn lemma_len<K, V>(entries: Seq<(K, V)>)
    requires
        distinct_keys(entries),
    ensures
        entries_map(entries).dom().finite(),
        entries_map(entries).len() == entries.len(),
    decreases entries.len(),
{
    if entries.len() == 0 {
        assert(entries_map(entries) =~= Map::<K, V>::empty());
    } else {
        let rest = entries.drop_last();
        let last = entries.last();
        assert(distinct_keys(rest)) by {
            assert forall|i: int, j: int| 0 <= i < j < rest.len() implies (#[trigger] rest[i]).0 != (
            #[trigger] rest[j]).0 by {
                assert(entries[i].0 != entries[j].0);
            }
        }
        lemma_len(rest);
        lemma_pushed(rest, last.0, last.1);
        assert(rest.push((last.0, last.1)) =~= entries);
        assert(!entries_map(rest).contains_key(last.0));
    }
}

/// Pushing an entry under a fresh key inserts it.
pub proof fn lemma_pushed<K, V>(entries: Seq<(K, V)>, k: K, v: V)
    requires
        distinct_keys(entries),
        !has_key(entries, k),
    ensures
        distinct_keys(entries.push((k, v))),
        entries_map(entries.push((k, v))) == entries_map(entries).insert(k, v),
{
    let after = entries.push((k, v));
    assert forall|i: int, j: int| 0 <= i < j < after.len() implies (#[trigger] after[i]).0 != (
    #[trigger] after[j]).0 by {
        if j < entries.len() {
            assert(entries[i].0 != entries[j].0);
        } else {
            assert(entries[i].0 != k);
        }
    }
    assert forall|q: K| #[trigger] has_key(after, q) <==> (q == k || has_key(entries, q)) by {
        if has_key(after, q) {
            let i = choose|i: int| 0 <= i < after.len() && #[trigger] after[i].0 == q;
            if i < entries.len() {
                assert(entries[i].0 == q);
            }
        }
        if q == k {
            assert(after[entries.len() as int].0 == q);
        }
        if has_key(entries, q) {
            let i = choose|i: int| 0 <= i < entries.len() && #[trigger] entries[i].0 == q;
            assert(after[i].0 == q);
        }
    }
    assert forall|q: K| has_key(after, q) implies #[trigger] entries_map(after)[q] == entries_map(
        entries,
    ).insert(k, v)[q] by {
        let i = choose|i: int| 0 <= i < after.len() && #[trigger] after[i].0 == q;
        lemma_entry(after, i);
        if i < entries.len() {
            assert(entries[i].0 == q);
            lemma_entry(entries, i);
        }
    }
    assert(entries_map(after) =~= entries_map(entries).insert(k, v));
}

/// Taking an entry out removes its key.
pub proof fn lemma_removed<K, V>(entries: Seq<(K, V)>, at: int)
    requires
        distinct_keys(entries),
        0 <= at < entries.len(),
    ensures
        distinct_keys(entries.remove(at)),
        !has_key(entries.remove(at), entries[at].0),
        entries_map(entries.remove(at)) == entries_map(entries).remove(entries[at].0),
{
    let after = entries.remove(at);
    let k = entries[at].0;
    assert forall|i: int| 0 <= i < after.len() implies #[trigger] after[i] == entries[if i < at {
        i
    } else {
        i + 1
    }] by {}
    assert forall|i: int, j: int| 0 <= i < j < after.len() implies (#[trigger] after[i]).0 != (
    #[trigger] after[j]).0 by {
        let a = if i < at { i } else { i + 1 };
        let b = if j < at { j } else { j + 1 };
        assert(entries[a].0 != entries[b].0);
    }
    assert forall|q: K| #[trigger] has_key(after, q) <==> (q != k && has_key(entries, q)) by {
        if has_key(after, q) {
            let i = choose|i: int| 0 <= i < after.len() && #[trigger] after[i].0 == q;
            let a = if i < at { i } else { i + 1 };
            assert(entries[a].0 == q);
            if a < at {
                assert(entries[a].0 != entries[at].0);
            } else {
                assert(entries[at].0 != entries[a].0);
            }
        }
        if q != k && has_key(entries, q) {
            let a = choose|a: int| 0 <= a < entries.len() && #[trigger] entries[a].0 == q;
            let i = if a < at { a } else { a - 1 };
            assert(after[i].0 == q);
        }
    }
    assert forall|q: K| has_key(after, q) implies #[trigger] entries_map(after)[q] == entries_map(
        entries,
    )[q] by {
        let i = choose|i: int| 0 <= i < after.len() && #[trigger] after[i].0 == q;
        let a = if i < at { i } else { i + 1 };
        lemma_entry(after, i);
        lemma_entry(entries, a);
    }
    assert(entries_map(after) =~= entries_map(entries).remove(k));
}

/// Taking an entry out and pushing one under the same key replaces what
/// stood under it.
pub proof fn lemma_replaced<K, V>(entries: Seq<(K, V)>, at: int, k: K, v: V)
    requires
        distinct_keys(entries),
        0 <= at < entries.len(),
        entries[at].0 == k,
    ensures
        distinct_keys(entries.remove(at).push((k, v))),
        entries_map(entries.remove(at).push((k, v))) == entries_map(entries).insert(k, v),
{
    lemma_removed(entries, at);
    lemma_pushed(entries.remove(at), k, v);
    assert(entries_map(entries).remove(k).insert(k, v) =~= entries_map(entries).insert(k, v));
}

} // verus!
