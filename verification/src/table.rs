//! A keyed table: the in-memory form of one named collection of the contract's
//! persistent state. Its mathematical model is a `Map` from the model of a key
//! to the model of a value.
use vstd::prelude::*;

verus! {

/// A value that can key a [`Table`]. Two keys are the same key exactly when
/// their models are equal.
pub trait Key: DeepView + Sized {
    /// Whether `self` and `other` are the same key.
    fn same(&self, other: &Self) -> (r: bool)
        ensures
            r == (self.deep_view() == other.deep_view()),
    ;

    /// A second copy of this key.
    fn dup(&self) -> (r: Self)
        ensures
            r.deep_view() == self.deep_view(),
    ;
}

impl Key for u64 {
    fn same(&self, other: &Self) -> (r: bool) {
        *self == *other
    }

    fn dup(&self) -> (r: Self) {
        *self
    }
}

impl Key for String {
    fn same(&self, other: &Self) -> (r: bool) {
        *self == *other
    }

    fn dup(&self) -> (r: Self) {
        self.clone()
    }
}

impl<A: Key, B: Key> Key for (A, B) {
    fn same(&self, other: &Self) -> (r: bool) {
        self.0.same(&other.0) && self.1.same(&other.1)
    }

    fn dup(&self) -> (r: Self) {
        (self.0.dup(), self.1.dup())
    }
}

/// A finite map from keys to values, held as a list of entries in which no key
/// occurs twice.
#[derive(Debug)]
pub struct Table<K: Key, V: DeepView> {
    entries: Vec<(K, V)>,
}

/// Position of the entry of `s` whose key has the model `k`, where there is one.
pub open spec fn position<K: Key, V: DeepView>(s: Seq<(K, V)>, k: K::V, i: int) -> bool {
    0 <= i < s.len() && s[i].0.deep_view() == k
}

/// No two entries of `s` have the same key.
pub open spec fn distinct<K: Key, V: DeepView>(s: Seq<(K, V)>) -> bool {
    forall|i: int, j: int|
        0 <= i < s.len() && 0 <= j < s.len() && i != j ==> #[trigger] s[i].0.deep_view()
            != #[trigger] s[j].0.deep_view()
}

/// The map that a list of entries with distinct keys stands for.
pub open spec fn entries_map<K: Key, V: DeepView>(s: Seq<(K, V)>) -> Map<K::V, V::V> {
    Map::new(
        |k: K::V| exists|i: int| position(s, k, i),
        |k: K::V| s[choose|i: int| position(s, k, i)].1.deep_view(),
    )
}

/// In a list with distinct keys, the entry at `i` is what the map holds for its key.
pub proof fn lemma_entry_is_mapped<K: Key, V: DeepView>(s: Seq<(K, V)>, i: int)
    requires
        distinct(s),
        0 <= i < s.len(),
    ensures
        entries_map(s).contains_key(s[i].0.deep_view()),
        entries_map(s)[s[i].0.deep_view()] == s[i].1.deep_view(),
{
    let k = s[i].0.deep_view();
    assert(position(s, k, i));
    let j = choose|j: int| position(s, k, j);
    assert(position(s, k, j));
    assert(j == i);
}

/// A key that sits at no position is not in the map.
pub proof fn lemma_absent_is_unmapped<K: Key, V: DeepView>(s: Seq<(K, V)>, k: K::V)
    requires
        forall|i: int| 0 <= i < s.len() ==> #[trigger] s[i].0.deep_view() != k,
    ensures
        !entries_map(s).contains_key(k),
{
    assert forall|i: int| !position(s, k, i) by {
        if 0 <= i < s.len() {
            assert(s[i].0.deep_view() != k);
        }
    }
}

/// Replacing the value at position `i` is an insertion under the same key.
pub proof fn lemma_update_is_insert<K: Key, V: DeepView>(s: Seq<(K, V)>, i: int, e: (K, V))
    requires
        distinct(s),
        0 <= i < s.len(),
        e.0.deep_view() == s[i].0.deep_view(),
    ensures
        distinct(s.update(i, e)),
        entries_map(s.update(i, e)) == entries_map(s).insert(e.0.deep_view(), e.1.deep_view()),
{
    let t = s.update(i, e);
    assert(distinct(t)) by {
        assert forall|a: int, b: int| 0 <= a < t.len() && 0 <= b < t.len() && a != b implies #[trigger] t[a].0.deep_view() != #[trigger] t[b].0.deep_view() by {
            assert(t[a].0.deep_view() == s[a].0.deep_view());
            assert(t[b].0.deep_view() == s[b].0.deep_view());
        }
    }
    let m1 = entries_map(t);
    let m2 = entries_map(s).insert(e.0.deep_view(), e.1.deep_view());
    assert forall|k: K::V| m1.contains_key(k) <==> m2.contains_key(k) by {
        if m1.contains_key(k) {
            let j = choose|j: int| position(t, k, j);
            assert(position(t, k, j));
            assert(t[j].0.deep_view() == s[j].0.deep_view());
            assert(position(s, k, j));
        }
        if m2.contains_key(k) {
            if k == e.0.deep_view() {
                assert(position(t, k, i));
            } else {
                let j = choose|j: int| position(s, k, j);
                assert(position(s, k, j));
                assert(t[j].0.deep_view() == s[j].0.deep_view());
                assert(position(t, k, j));
            }
        }
    }
    assert forall|k: K::V| m1.contains_key(k) implies m1[k] == m2[k] by {
        let j = choose|j: int| position(t, k, j);
        assert(position(t, k, j));
        lemma_entry_is_mapped(t, j);
        if j == i {
        } else {
            assert(t[j] == s[j]);
            lemma_entry_is_mapped(s, j);
        }
    }
    assert(m1 =~= m2);
}

/// Appending an entry under a key that is not yet there is an insertion.
pub proof fn lemma_push_is_insert<K: Key, V: DeepView>(s: Seq<(K, V)>, e: (K, V))
    requires
        distinct(s),
        !entries_map(s).contains_key(e.0.deep_view()),
    ensures
        distinct(s.push(e)),
        entries_map(s.push(e)) == entries_map(s).insert(e.0.deep_view(), e.1.deep_view()),
{
    let t = s.push(e);
    let n = s.len() as int;
    assert forall|a: int| 0 <= a < n implies #[trigger] s[a].0.deep_view() != e.0.deep_view() by {
        assert(position(s, s[a].0.deep_view(), a));
    }
    assert(distinct(t)) by {
        assert forall|a: int, b: int| 0 <= a < t.len() && 0 <= b < t.len() && a != b implies #[trigger] t[a].0.deep_view() != #[trigger] t[b].0.deep_view() by {
            if a < n {
                assert(t[a].0.deep_view() == s[a].0.deep_view());
            }
            if b < n {
                assert(t[b].0.deep_view() == s[b].0.deep_view());
            }
        }
    }
    let m1 = entries_map(t);
    let m2 = entries_map(s).insert(e.0.deep_view(), e.1.deep_view());
    assert forall|k: K::V| m1.contains_key(k) <==> m2.contains_key(k) by {
        if m1.contains_key(k) {
            let j = choose|j: int| position(t, k, j);
            assert(position(t, k, j));
            if j < n {
                assert(t[j].0.deep_view() == s[j].0.deep_view());
                assert(position(s, k, j));
            }
        }
        if m2.contains_key(k) {
            if k == e.0.deep_view() {
                assert(position(t, k, n));
            } else {
                let j = choose|j: int| position(s, k, j);
                assert(position(s, k, j));
                assert(t[j].0.deep_view() == s[j].0.deep_view());
                assert(position(t, k, j));
            }
        }
    }
    assert forall|k: K::V| m1.contains_key(k) implies m1[k] == m2[k] by {
        let j = choose|j: int| position(t, k, j);
        assert(position(t, k, j));
        lemma_entry_is_mapped(t, j);
        if j < n {
            assert(t[j] == s[j]);
            lemma_entry_is_mapped(s, j);
        }
    }
    assert(m1 =~= m2);
}

/// Dropping the entry at position `i` removes its key from the map.
pub proof fn lemma_remove_is_remove<K: Key, V: DeepView>(s: Seq<(K, V)>, i: int)
    requires
        distinct(s),
        0 <= i < s.len(),
    ensures
        distinct(s.remove(i)),
        entries_map(s.remove(i)) == entries_map(s).remove(s[i].0.deep_view()),
{
    let t = s.remove(i);
    let gone = s[i].0.deep_view();
    assert forall|a: int| 0 <= a < t.len() implies #[trigger] t[a] == s[if a < i { a } else { a + 1 }] by {}
    assert(distinct(t)) by {
        assert forall|a: int, b: int| 0 <= a < t.len() && 0 <= b < t.len() && a != b implies #[trigger] t[a].0.deep_view() != #[trigger] t[b].0.deep_view() by {
            let a2 = if a < i { a } else { a + 1 };
            let b2 = if b < i { b } else { b + 1 };
            assert(t[a] == s[a2]);
            assert(t[b] == s[b2]);
            assert(s[a2].0.deep_view() != s[b2].0.deep_view());
        }
    }
    let m1 = entries_map(t);
    let m2 = entries_map(s).remove(gone);
    assert forall|k: K::V| m1.contains_key(k) <==> m2.contains_key(k) by {
        if m1.contains_key(k) {
            let j = choose|j: int| position(t, k, j);
            assert(position(t, k, j));
            let j2 = if j < i { j } else { j + 1 };
            assert(t[j] == s[j2]);
            assert(position(s, k, j2));
            assert(s[j2].0.deep_view() != s[i].0.deep_view());
        }
        if m2.contains_key(k) {
            let j = choose|j: int| position(s, k, j);
            assert(position(s, k, j));
            assert(j != i);
            let j1 = if j < i { j } else { j - 1 };
            assert(t[j1] == s[j]);
            assert(position(t, k, j1));
        }
    }
    assert forall|k: K::V| m1.contains_key(k) implies m1[k] == m2[k] by {
        let j = choose|j: int| position(t, k, j);
        assert(position(t, k, j));
        lemma_entry_is_mapped(t, j);
        let j2 = if j < i { j } else { j + 1 };
        assert(t[j] == s[j2]);
        lemma_entry_is_mapped(s, j2);
    }
    assert(m1 =~= m2);
}

impl<K: Key, V: DeepView> View for Table<K, V> {
    type V = Map<K::V, V::V>;

    closed spec fn view(&self) -> Map<K::V, V::V> {
        entries_map(self.entries@)
    }
}

impl<K: Key, V: DeepView> DeepView for Table<K, V> {
    type V = Map<K::V, V::V>;

    open spec fn deep_view(&self) -> Map<K::V, V::V> {
        self.view()
    }
}

impl<K: Key, V: DeepView> Table<K, V> {
    #[verifier::type_invariant]
    spec fn well_formed(self) -> bool {
        distinct(self.entries@)
    }

    /// The empty table.
    pub fn new() -> (t: Self)
        ensures
            t@ == Map::<K::V, V::V>::empty(),
    {
        let t = Table { entries: Vec::new() };
        assert(t@ =~= Map::<K::V, V::V>::empty()) by {
            assert forall|k: K::V| !entries_map(t.entries@).contains_key(k) by {
                lemma_absent_is_unmapped(t.entries@, k);
            }
        }
        t
    }

    fn find(&self, key: &K) -> (r: Option<usize>)
        ensures
            match r {
                Some(i) => position(self.entries@, key.deep_view(), i as int),
                None => !self@.contains_key(key.deep_view()),
            },
    {
        let mut i: usize = 0;
        while i < self.entries.len()
            invariant
                0 <= i <= self.entries.len(),
                forall|j: int| 0 <= j < i ==> #[trigger] self.entries@[j].0.deep_view() != key.deep_view(),
            decreases self.entries.len() - i,
        {
            if self.entries[i].0.same(key) {
                return Some(i);
            }
            i += 1;
        }
        proof {
            lemma_absent_is_unmapped(self.entries@, key.deep_view());
        }
        None
    }

    /// Whether the table holds a value under `key`.
    pub fn has(&self, key: &K) -> (b: bool)
        ensures
            b == self@.contains_key(key.deep_view()),
    {
        proof {
            use_type_invariant(self);
        }
        match self.find(key) {
            Some(i) => {
                proof {
                    lemma_entry_is_mapped(self.entries@, i as int);
                }
                true
            },
            None => false,
        }
    }

    /// The value under `key`, where there is one.
    pub fn get(&self, key: &K) -> (r: Option<&V>)
        ensures
            match r {
                Some(v) => self@.contains_key(key.deep_view()) && v.deep_view() == self@[key.deep_view()],
                None => !self@.contains_key(key.deep_view()),
            },
    {
        proof {
            use_type_invariant(self);
        }
        match self.find(key) {
            Some(i) => {
                proof {
                    lemma_entry_is_mapped(self.entries@, i as int);
                }
                Some(&self.entries[i].1)
            },
            None => None,
        }
    }

    /// Stores `value` under `key`, in place of what was there.
    pub fn save(&mut self, key: K, value: V)
        ensures
            final(self)@ == old(self)@.insert(key.deep_view(), value.deep_view()),
    {
        proof {
            use_type_invariant(&*self);
        }
        let found = self.find(&key);
        let mut entries: Vec<(K, V)> = Vec::new();
        std::mem::swap(&mut entries, &mut self.entries);
        match found {
            Some(i) => {
                proof {
                    lemma_update_is_insert(entries@, i as int, (key, value));
                }
                entries.set(i, (key, value));
            },
            None => {
                proof {
                    lemma_push_is_insert(entries@, (key, value));
                }
                entries.push((key, value));
            },
        }
        self.entries = entries;
    }

    /// Takes out the value under `key`, where there is one.
    pub fn remove(&mut self, key: &K) -> (r: Option<V>)
        ensures
            final(self)@ == old(self)@.remove(key.deep_view()),
            match r {
                Some(v) => old(self)@.contains_key(key.deep_view()) && v.deep_view() == old(self)@[key.deep_view()],
                None => !old(self)@.contains_key(key.deep_view()),
            },
    {
        proof {
            use_type_invariant(&*self);
        }
        match self.find(key) {
            Some(i) => {
                let mut entries: Vec<(K, V)> = Vec::new();
                std::mem::swap(&mut entries, &mut self.entries);
                proof {
                    lemma_entry_is_mapped(entries@, i as int);
                    lemma_remove_is_remove(entries@, i as int);
                }
                let e = entries.remove(i);
                self.entries = entries;
                Some(e.1)
            },
            None => {
                assert(self@ =~= self@.remove(key.deep_view()));
                None
            },
        }
    }

    /// Takes out the value under `key`, which the table holds.
    pub fn take(&mut self, key: &K) -> (v: V)
        requires
            old(self)@.contains_key(key.deep_view()),
        ensures
            final(self)@ == old(self)@.remove(key.deep_view()),
            v.deep_view() == old(self)@[key.deep_view()],
    {
        match self.remove(key) {
            Some(v) => v,
            None => vstd::pervasive::unreached(),
        }
    }

    /// Number of entries.
    pub fn len(&self) -> (n: usize)
        ensures
            n == self.entry_count(),
    {
        self.entries.len()
    }

    /// Number of entries, as the model sees it.
    pub closed spec fn entry_count(&self) -> nat {
        self.entries@.len()
    }

    /// The entry at position `i` of the table's listing.
    pub fn entry(&self, i: usize) -> (r: (&K, &V))
        requires
            i < self.entry_count(),
        ensures
            self@.contains_key(r.0.deep_view()),
            self@[r.0.deep_view()] == r.1.deep_view(),
    {
        proof {
            use_type_invariant(self);
            lemma_entry_is_mapped(self.entries@, i as int);
        }
        (&self.entries[i].0, &self.entries[i].1)
    }
}

} // verus!
