//! A small insertion-ordered map whose keys are compared by their model.
//! It stands for the hash maps that hold clients, servers, templates and
//! approvals: each key occurs at most once, and the map is viewed as a `Map`.

use vstd::prelude::*;

verus! {

/// A key that can be compared and copied in executable code, with a model
/// that decides equality.
pub trait MapKey: Sized {
    type Model;

    spec fn model(&self) -> Self::Model;

    fn same_key(&self, other: &Self) -> (r: bool)
        ensures
            r == (self.model() == other.model()),
    ;

    fn copy_key(&self) -> (r: Self)
        ensures
            r.model() == self.model(),
    ;
}

impl MapKey for String {
    type Model = Seq<char>;

    open spec fn model(&self) -> Seq<char> {
        self@
    }

    fn same_key(&self, other: &Self) -> (r: bool) {
        *self == *other
    }

    fn copy_key(&self) -> (r: Self) {
        self.clone()
    }
}

impl MapKey for u64 {
    type Model = u64;

    open spec fn model(&self) -> u64 {
        *self
    }

    fn same_key(&self, other: &Self) -> (r: bool) {
        *self == *other
    }

    fn copy_key(&self) -> (r: Self) {
        *self
    }
}

/// Entries in insertion order; no two entries share a key model.
pub struct KeyedMap<K: MapKey, V> {
    entries: Vec<(K, V)>,
}

/// The models of the keys of `entries`, in order.
pub open spec fn entry_key_models<K: MapKey, V>(entries: Seq<(K, V)>) -> Seq<K::Model> {
    entries.map_values(|e: (K, V)| e.0.model())
}

impl<K: MapKey, V> KeyedMap<K, V> {
    /// The entries, in insertion order.
    pub closed spec fn entries(&self) -> Seq<(K, V)> {
        self.entries@
    }

    /// The models of the keys, in insertion order.
    pub open spec fn key_seq(&self) -> Seq<K::Model> {
        entry_key_models(self.entries())
    }

    /// No key model occurs twice.
    pub open spec fn wf(&self) -> bool {
        self.key_seq().no_duplicates()
    }

    /// The map from key models to values.
    pub open spec fn view(&self) -> Map<K::Model, V> {
        Map::new(
            |k: K::Model| self.key_seq().contains(k),
            |k: K::Model| self.entries()[self.key_seq().index_of(k)].1,
        )
    }

    pub fn new() -> (r: Self)
        ensures
            r.wf(),
            r@ == Map::<K::Model, V>::empty(),
            r.key_seq() == Seq::<K::Model>::empty(),
    {
        let r = KeyedMap { entries: Vec::new() };
        assert(r@ =~= Map::<K::Model, V>::empty());
        assert(r.key_seq() =~= Seq::<K::Model>::empty());
        r
    }

    /// Number of entries.
    pub fn len(&self) -> (r: usize)
        requires
            self.wf(),
        ensures
            r == self@.dom().len(),
            r == self.key_seq().len(),
    {
        proof {
            self.lemma_dom_len();
        }
        self.entries.len()
    }

    /// The keys in order are exactly the domain.
    pub proof fn lemma_keys_dom(&self)
        requires
            self.wf(),
        ensures
            self@.dom() == self.key_seq().to_set(),
    {
        self.lemma_dom_len();
    }

    proof fn lemma_dom_len(&self)
        requires
            self.wf(),
        ensures
            self@.dom() == self.key_seq().to_set(),
            self@.dom().len() == self.key_seq().len(),
    {
        assert(self@.dom() =~= self.key_seq().to_set());
        self.key_seq().unique_seq_to_set();
    }

    /// Position of the entry with the given key model.
    fn find(&self, k: &K) -> (r: Option<usize>)
        requires
            self.wf(),
        ensures
            match r {
                Some(i) => i < self.key_seq().len() && self.key_seq()[i as int] == k.model()
                    && self.key_seq().index_of(k.model()) == i,
                None => !self.key_seq().contains(k.model()),
            },
    {
        let mut i: usize = 0;
        while i < self.entries.len()
            invariant
                self.wf(),
                i <= self.entries@.len(),
                forall|j: int| 0 <= j < i ==> self.key_seq()[j] != k.model(),
            decreases self.entries@.len() - i,
        {
            if self.entries[i].0.same_key(k) {
                proof {
                    self.key_seq().index_of_first_ensures(k.model());
                    assert(self.key_seq()[i as int] == k.model());
                    assert(self.key_seq().contains(k.model()));
                }
                return Some(i);
            }
            i = i + 1;
        }
        None
    }

    pub fn contains_key(&self, k: &K) -> (r: bool)
        requires
            self.wf(),
        ensures
            r == self@.dom().contains(k.model()),
    {
        self.find(k).is_some()
    }

    pub fn get(&self, k: &K) -> (r: Option<&V>)
        requires
            self.wf(),
        ensures
            match r {
                Some(v) => self@.dom().contains(k.model()) && *v == self@[k.model()],
                None => !self@.dom().contains(k.model()),
            },
    {
        match self.find(k) {
            Some(i) => Some(&self.entries[i].1),
            None => None,
        }
    }

    /// Inserts or replaces; a replaced entry keeps its position. Returns the
    /// value that was stored under the key before, if any.
    pub fn insert(&mut self, k: K, v: V) -> (r: Option<V>)
        requires
            old(self).wf(),
        ensures
            final(self).wf(),
            final(self)@ == old(self)@.insert(k.model(), v),
            match r {
                Some(p) => old(self)@.dom().contains(k.model()) && p == old(self)@[k.model()],
                None => !old(self)@.dom().contains(k.model()),
            },
            old(self)@.dom().contains(k.model()) ==> final(self).key_seq() == old(self).key_seq(),
            !old(self)@.dom().contains(k.model()) ==> final(self).key_seq() == old(self).key_seq().push(
                k.model(),
            ),
    {
        let ghost km = k.model();
        let ghost old_keys = self.key_seq();
        match self.find(&k) {
            Some(i) => {
                let old_entry = self.entries.remove(i);
                self.entries.insert(i, (k, v));
                proof {
                    assert(self.key_seq() =~= old_keys);
                    assert(self@ =~= old(self)@.insert(km, v)) by {
                        assert forall|x: K::Model| #[trigger] self@.dom().contains(x) implies self@[x]
                            == old(self)@.insert(km, v)[x] by {
                            let j = self.key_seq().index_of(x);
                            self.key_seq().index_of_first_ensures(x);
                            old_keys.index_of_first_ensures(x);
                        }
                    }
                }
                Some(old_entry.1)
            },
            None => {
                self.entries.push((k, v));
                proof {
                    let ks = self.key_seq();
                    assert(ks =~= old_keys.push(km));
                    assert(ks.no_duplicates()) by {
                        assert forall|a: int, b: int| 0 <= a < ks.len() && 0 <= b < ks.len() && a != b
                            implies ks[a] != ks[b] by {
                            if a == ks.len() - 1 || b == ks.len() - 1 {
                                if a < old_keys.len() {
                                    assert(old_keys.contains(old_keys[a]));
                                }
                                if b < old_keys.len() {
                                    assert(old_keys.contains(old_keys[b]));
                                }
                            }
                        }
                    }
                    assert(self@ =~= old(self)@.insert(km, v)) by {
                        assert forall|x: K::Model| #[trigger] self@.dom().contains(x) implies self@[x]
                            == old(self)@.insert(km, v)[x] by {
                            ks.index_of_first_ensures(x);
                            if x != km {
                                old_keys.index_of_first_ensures(x);
                                assert(ks.index_of(x) == old_keys.index_of(x));
                            } else {
                                assert(ks[ks.len() - 1] == km);
                            }
                        }
                        assert forall|x: K::Model| #[trigger] old(self)@.insert(km, v).dom().contains(x)
                            implies self@.dom().contains(x) by {
                            if x != km {
                                let j = old_keys.index_of(x);
                                old_keys.index_of_first_ensures(x);
                                assert(ks[j] == x);
                            } else {
                                assert(ks[ks.len() - 1] == km);
                            }
                        }
                    }
                }
                None
            },
        }
    }

    /// Removes the entry with the given key, keeping the order of the others.
    pub fn remove(&mut self, k: &K) -> (r: Option<V>)
        requires
            old(self).wf(),
        ensures
            final(self).wf(),
            final(self)@ == old(self)@.remove(k.model()),
            match r {
                Some(p) => old(self)@.dom().contains(k.model()) && p == old(self)@[k.model()],
                None => !old(self)@.dom().contains(k.model()) && final(self).key_seq() == old(
                    self,
                ).key_seq(),
            },
            final(self).key_seq() == old(self).key_seq().filter(|x: K::Model| x != k.model()),
    {
        let ghost km = k.model();
        let ghost old_keys = self.key_seq();
        match self.find(k) {
            Some(i) => {
                let e = self.entries.remove(i);
                proof {
                    let ks = self.key_seq();
                    assert(ks =~= old_keys.remove(i as int));
                    lemma_remove_unique_is_filter(old_keys, i as int);
                    assert(ks.no_duplicates()) by {
                        assert forall|a: int, b: int| 0 <= a < ks.len() && 0 <= b < ks.len() && a != b
                            implies ks[a] != ks[b] by {
                            let oa = if a < i { a } else { a + 1 };
                            let ob = if b < i { b } else { b + 1 };
                            assert(ks[a] == old_keys[oa]);
                            assert(ks[b] == old_keys[ob]);
                        }
                    }
                    assert(self@ =~= old(self)@.remove(km)) by {
                        assert forall|x: K::Model| #[trigger] self@.dom().contains(x) implies self@[x]
                            == old(self)@.remove(km)[x] && x != km && old(self)@.dom().contains(x) by {
                            let j = ks.index_of(x);
                            ks.index_of_first_ensures(x);
                            let oj = if j < i { j } else { j + 1 };
                            assert(old_keys[oj] == x);
                            assert(old_keys.contains(x));
                            old_keys.index_of_first_ensures(x);
                        }
                        assert forall|x: K::Model| #[trigger] old(self)@.remove(km).dom().contains(x)
                            implies self@.dom().contains(x) by {
                            let j = old_keys.index_of(x);
                            old_keys.index_of_first_ensures(x);
                            if j < i {
                                assert(ks[j] == x);
                            } else {
                                assert(ks[j - 1] == x);
                            }
                        }
                    }
                }
                Some(e.1)
            },
            None => {
                proof {
                    assert(self@ =~= old(self)@.remove(km));
                    assert(old_keys.filter(|x: K::Model| x != km) =~= old_keys) by {
                        lemma_filter_absent(old_keys, km);
                    }
                }
                None
            },
        }
    }

    /// The keys, copied, in insertion order.
    pub fn keys(&self) -> (r: Vec<K>)
        requires
            self.wf(),
        ensures
            key_models(r@) == self.key_seq(),
    {
        let mut out: Vec<K> = Vec::new();
        let mut i: usize = 0;
        while i < self.entries.len()
            invariant
                i <= self.entries@.len(),
                out@.len() == i,
                forall|j: int| 0 <= j < i ==> #[trigger] out@[j].model() == self.key_seq()[j],
            decreases self.entries@.len() - i,
        {
            out.push(self.entries[i].0.copy_key());
            i = i + 1;
        }
        proof {
            assert(out@.map_values(|k: K| k.model()) =~= self.key_seq());
        }
        out
    }
}

/// The models of a sequence of keys, in order.
pub open spec fn key_models<K: MapKey>(keys: Seq<K>) -> Seq<K::Model> {
    keys.map_values(|k: K| k.model())
}

proof fn lemma_filter_absent<T>(s: Seq<T>, x: T)
    requires
        !s.contains(x),
    ensures
        s.filter(|y: T| y != x) == s,
    decreases s.len(),
{
    reveal(Seq::filter);
    if s.len() > 0 {
        assert(!s.drop_last().contains(x)) by {
            if s.drop_last().contains(x) {
                let j = choose|j: int| 0 <= j < s.drop_last().len() && s.drop_last()[j] == x;
                assert(s[j] == x);
            }
        }
        lemma_filter_absent(s.drop_last(), x);
        assert(s.last() != x);
        assert(s.drop_last().push(s.last()) =~= s);
    }
    assert(s.filter(|y: T| y != x) =~= s);
}

proof fn lemma_remove_unique_is_filter<T>(s: Seq<T>, i: int)
    requires
        s.no_duplicates(),
        0 <= i < s.len(),
    ensures
        s.remove(i) == s.filter(|y: T| y != s[i]),
    decreases s.len(),
{
    reveal(Seq::filter);
    let x = s[i];
    if i == s.len() - 1 {
        assert(!s.drop_last().contains(x)) by {
            if s.drop_last().contains(x) {
                let j = choose|j: int| 0 <= j < s.drop_last().len() && s.drop_last()[j] == x;
                assert(s[j] == x);
            }
        }
        lemma_filter_absent(s.drop_last(), x);
        assert(s.remove(i) =~= s.drop_last());
    } else {
        let d = s.drop_last();
        assert(d.no_duplicates());
        assert(d[i] == x);
        lemma_remove_unique_is_filter(d, i);
        assert(s.last() != x);
        assert(s.remove(i) =~= d.remove(i).push(s.last()));
    }
}

} // verus!
