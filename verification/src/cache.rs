//! A cache of items by name, each stamped with the time it was stored.

use vstd::prelude::*;
use crate::keyed_map::KeyedMap;
use crate::clock::system_now;

verus! {

/// An item and the time it was stored.
pub struct CacheEntry<T> {
    insert_time: std::time::SystemTime,
    item: T,
}

impl<T> CacheEntry<T> {
    pub closed spec fn spec_item(&self) -> T {
        self.item
    }

    pub fn item(&self) -> (r: &T)
        ensures
            *r == self.spec_item(),
    {
        &self.item
    }

    pub closed spec fn spec_insert_time(&self) -> std::time::SystemTime {
        self.insert_time
    }

    /// When the item was stored.
    pub fn insert_time(&self) -> (r: &std::time::SystemTime)
        ensures
            *r == self.spec_insert_time(),
    {
        &self.insert_time
    }
}

pub struct Cache<T> {
    entries: KeyedMap<String, CacheEntry<T>>,
}

impl<T> View for Cache<T> {
    type V = Map<Seq<char>, T>;

    /// The stored items by key.
    closed spec fn view(&self) -> Map<Seq<char>, T> {
        self.entries@.map_values(|e: CacheEntry<T>| e.item)
    }
}

impl<T> Cache<T> {
    pub closed spec fn wf(&self) -> bool {
        self.entries.wf()
    }

    pub fn new() -> (r: Cache<T>)
        ensures
            r.wf(),
            r@ == Map::<Seq<char>, T>::empty(),
    {
        let r = Cache { entries: KeyedMap::new() };
        assert(r@ =~= Map::<Seq<char>, T>::empty());
        r
    }

    /// Stores `item` under `key`, stamped with the current time, and returns
    /// the item that was stored under `key` before, if any.
    pub fn insert(&mut self, key: String, item: T) -> (r: Option<T>)
        requires
            old(self).wf(),
        ensures
            final(self).wf(),
            final(self)@ == old(self)@.insert(key@, item),
            match r {
                Some(p) => old(self)@.dom().contains(key@) && p == old(self)@[key@],
                None => !old(self)@.dom().contains(key@),
            },
    {
        let ghost k = key@;
        let entry = CacheEntry { item, insert_time: system_now() };
        let previous = self.entries.insert(key, entry);
        assert(self@ =~= old(self)@.insert(k, item));
        match previous {
            Some(e) => Some(e.item),
            None => None,
        }
    }

    /// The item stored under `key`, if any.
    pub fn get(&self, key: &String) -> (r: Option<&T>)
        requires
            self.wf(),
        ensures
            match r {
                Some(v) => self@.dom().contains(key@) && *v == self@[key@],
                None => !self@.dom().contains(key@),
            },
    {
        match self.entries.get(key) {
            Some(e) => Some(&e.item),
            None => None,
        }
    }
}

} // verus!
