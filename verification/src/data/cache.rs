//! A small map from text keys to values, kept in insertion order.
//!
//! The entries can be walked, first key first, and every walk gives the same order:
//! what is done for each user of a session is done in an order that can be said
//! beforehand. The view is the map alone; `keys` gives the order.

use crate::json::text_eq;
use vstd::prelude::*;

verus! {

/// Entries keyed by text, no key twice, in the order in which the keys first came.
#[derive(Debug, Clone)]
pub struct TextMap<T> {
    entries: Vec<(String, T)>,
}

/// Whether some entry of `entries` has the key `key`.
pub open spec fn has_key<T>(entries: Seq<(String, T)>, key: Seq<char>) -> bool {
    exists|i: int| 0 <= i < entries.len() && (#[trigger] entries[i]).0@ == key
}

/// The place of an entry with the key `key`.
pub open spec fn place_of<T>(entries: Seq<(String, T)>, key: Seq<char>) -> int {
    choose|i: int| 0 <= i < entries.len() && (#[trigger] entries[i]).0@ == key
}

/// No two entries share a key.
pub open spec fn distinct_keys<T>(entries: Seq<(String, T)>) -> bool {
    forall|i: int, j: int|
        0 <= i < entries.len() && 0 <= j < entries.len() && i != j ==> (#[trigger] entries[i]).0@
            != (#[trigger] entries[j]).0@
}

impl<T> TextMap<T> {
    /// The invariant of the type: no key stands twice.
    pub closed spec fn well_formed(&self) -> bool {
        distinct_keys(self.entries@)
    }
}

impl<T: View> View for TextMap<T> {
    type V = Map<Seq<char>, T::V>;

    closed spec fn view(&self) -> Map<Seq<char>, T::V> {
        Map::new(
            |key: Seq<char>| has_key(self.entries@, key),
            |key: Seq<char>| self.entries@[place_of(self.entries@, key)].1@,
        )
    }
}

impl<T: View> TextMap<T> {
    /// The keys, in the order in which they first came.
    pub closed spec fn keys(&self) -> Seq<Seq<char>> {
        Seq::new(self.entries@.len(), |i: int| self.entries@[i].0@)
    }

    /// An empty map.
    pub fn new() -> (map: TextMap<T>)
        ensures
            map.well_formed(),
            map@ == Map::<Seq<char>, T::V>::empty(),
            map.keys() == Seq::<Seq<char>>::empty(),
    {
        let map = TextMap { entries: Vec::new() };
        assert(map@ =~= Map::<Seq<char>, T::V>::empty());
        assert(map.keys() =~= Seq::<Seq<char>>::empty());
        map
    }

    /// The number of entries. The keys are those of the view, each once.
    pub fn len(&self) -> (n: usize)
        requires
            self.well_formed(),
        ensures
            n == self.keys().len(),
            self.keys().no_duplicates(),
            forall|key: Seq<char>| self.keys().contains(key) <==> self@.dom().contains(key),
    {
        proof {
            let keys = self.keys();
            assert forall|key: Seq<char>| keys.contains(key) <==> self@.dom().contains(key) by {
                if keys.contains(key) {
                    let i = choose|i: int| 0 <= i < keys.len() && keys[i] == key;
                    assert(self.entries@[i].0@ == key);
                }
                if self@.dom().contains(key) {
                    let i = place_of(self.entries@, key);
                    assert(keys[i] == key);
                }
            }
        }
        self.entries.len()
    }

    fn find(&self, key: &str) -> (place: Option<usize>)
        requires
            self.well_formed(),
        ensures
            match place {
                Some(i) => i < self.entries@.len() && self.entries@[i as int].0@ == key@
                    && place_of(self.entries@, key@) == i,
                None => !has_key(self.entries@, key@),
            },
    {
        let mut i: usize = 0;
        while i < self.entries.len()
            invariant
                i <= self.entries@.len(),
                distinct_keys(self.entries@),
                forall|k: int| 0 <= k < i ==> (#[trigger] self.entries@[k]).0@ != key@,
            decreases self.entries@.len() - i,
        {
            if text_eq(self.entries[i].0.as_str(), key) {
                return Some(i);
            }
            i += 1;
        }
        None
    }

    /// Whether `key` has an entry.
    pub fn contains_key(&self, key: &str) -> (found: bool)
        requires
            self.well_formed(),
        ensures
            found == self@.dom().contains(key@),
    {
        self.find(key).is_some()
    }

    /// The value under `key`.
    pub fn get(&self, key: &str) -> (value: Option<&T>)
        requires
            self.well_formed(),
        ensures
            match value {
                Some(v) => self@.dom().contains(key@) && self@[key@] == v@,
                None => !self@.dom().contains(key@),
            },
    {
        match self.find(key) {
            Some(i) => Some(&self.entries[i].1),
            None => None,
        }
    }

    /// The key and the value at place `i` in the order of `keys`.
    pub fn entry(&self, i: usize) -> (entry: (&String, &T))
        requires
            self.well_formed(),
            i < self.keys().len(),
        ensures
            entry.0@ == self.keys()[i as int],
            self@.dom().contains(entry.0@),
            entry.1@ == self@[entry.0@],
    {
        assert(has_key(self.entries@, self.entries@[i as int].0@));
        (&self.entries[i].0, &self.entries[i].1)
    }

    /// Puts `value` under `key`, in place of what stood there if anything did.
    pub fn insert(&mut self, key: String, value: T)
        requires
            old(self).well_formed(),
        ensures
            final(self).well_formed(),
            final(self)@ == old(self)@.insert(key@, value@),
            final(self).keys() == if old(self)@.dom().contains(key@) {
                old(self).keys()
            } else {
                old(self).keys().push(key@)
            },
    {
        let ghost before = self.entries@;
        let ghost old_view = self@;
        let ghost old_keys = self.keys();
        let ghost k = key@;
        let ghost v = value@;
        match self.find(key.as_str()) {
            Some(i) => {
                self.entries.set(i, (key, value));
                let ghost now = self.entries@;
                assert(distinct_keys(now)) by {
                    assert forall|a: int, b: int|
                        0 <= a < now.len() && 0 <= b < now.len() && a != b implies (
                    #[trigger] now[a]).0@ != (#[trigger] now[b]).0@ by {
                        assert(now[a].0@ == before[a].0@);
                        assert(now[b].0@ == before[b].0@);
                    }
                }
                assert(self.keys() =~= old_keys);
                assert forall|q: Seq<char>| has_key(now, q) <==> has_key(before, q) || q == k by {
                    if has_key(now, q) {
                        let a = place_of(now, q);
                        assert(before[a].0@ == now[a].0@);
                    }
                    if has_key(before, q) {
                        let a = place_of(before, q);
                        assert(now[a].0@ == before[a].0@);
                    }
                    if q == k {
                        assert(now[i as int].0@ == k);
                    }
                }
                assert forall|q: Seq<char>| has_key(now, q) implies #[trigger] self@[q]
                    == old_view.insert(k, v)[q] by {
                    let a = place_of(now, q);
                    if q == k {
                        assert(now[i as int].0@ == k);
                        assert(a == i);
                    } else {
                        assert(before[a].0@ == q);
                        let b = place_of(before, q);
                        assert(a == b);
                    }
                }
                assert(self@ =~= old_view.insert(k, v));
            },
            None => {
                self.entries.push((key, value));
                let ghost now = self.entries@;
                let ghost n = before.len() as int;
                assert(distinct_keys(now)) by {
                    assert forall|a: int, b: int|
                        0 <= a < now.len() && 0 <= b < now.len() && a != b implies (
                    #[trigger] now[a]).0@ != (#[trigger] now[b]).0@ by {
                        if a < n {
                            assert(now[a] == before[a]);
                        }
                        if b < n {
                            assert(now[b] == before[b]);
                        }
                    }
                }
                assert(self.keys() =~= old_keys.push(k));
                assert forall|q: Seq<char>| has_key(now, q) <==> has_key(before, q) || q == k by {
                    if has_key(now, q) {
                        let a = place_of(now, q);
                        if a < n {
                            assert(before[a] == now[a]);
                        }
                    }
                    if has_key(before, q) {
                        let a = place_of(before, q);
                        assert(now[a] == before[a]);
                    }
                    if q == k {
                        assert(now[n].0@ == k);
                    }
                }
                assert forall|q: Seq<char>| has_key(now, q) implies #[trigger] self@[q]
                    == old_view.insert(k, v)[q] by {
                    let a = place_of(now, q);
                    if q == k {
                        assert(now[n].0@ == k);
                        assert(a == n);
                    } else {
                        assert(a < n);
                        assert(before[a] == now[a]);
                        let b = place_of(before, q);
                        assert(now[b] == before[b]);
                        assert(a == b);
                    }
                }
                assert(self@ =~= old_view.insert(k, v));
            },
        }
    }
}

impl<M> TextMap<Vec<M>> {
    /// Appends `item` to the list under `key`, which starts empty where the key is new.
    pub fn push_to(&mut self, key: String, item: M)
        requires
            old(self).well_formed(),
        ensures
            final(self).well_formed(),
            final(self)@ == old(self)@.insert(
                key@,
                if old(self)@.dom().contains(key@) {
                    old(self)@[key@].push(item)
                } else {
                    seq![item]
                },
            ),
            final(self).keys() == if old(self)@.dom().contains(key@) {
                old(self).keys()
            } else {
                old(self).keys().push(key@)
            },
    {
        let ghost before = self.entries@;
        let ghost old_view = self@;
        let present = self.find(key.as_str());
        let mut list: Vec<M> = match present {
            Some(i) => {
                let mut taken: Vec<M> = Vec::new();
                taken.append(&mut self.entries[i].1);
                assert(taken@ == before[i as int].1@);
                taken
            },
            None => Vec::new(),
        };
        let ghost emptied = self.entries@;
        proof {
            assert(emptied.len() == before.len());
            assert forall|a: int| 0 <= a < before.len() implies (#[trigger] emptied[a]).0
                == before[a].0 by {}
            assert forall|q: Seq<char>| has_key(emptied, q) <==> has_key(before, q) by {
                if has_key(emptied, q) {
                    let a = place_of(emptied, q);
                    assert(before[a].0@ == q);
                }
                if has_key(before, q) {
                    let a = place_of(before, q);
                    assert(emptied[a].0@ == q);
                }
            }
            assert forall|q: Seq<char>| has_key(before, q) && q != key@ implies #[trigger] self@[q]
                == old_view[q] by {
                let a = place_of(emptied, q);
                let b = place_of(before, q);
                assert(before[a].0@ == q);
                assert(a == b);
            }
            assert(self.keys() =~= old(self).keys());
        }
        list.push(item);
        let ghost listed = list@;
        self.insert(key, list);
        assert(self@ =~= old_view.insert(key@, listed));
    }
}

} // verus!
