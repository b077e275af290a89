//! Per-room lists, such as the timeline or the members of each room, kept as a
//! list of entries in which no room occurs twice.

use crate::ids::RoomId;
use vstd::prelude::*;

verus! {

/// For each room that has an entry, a list of items.
pub struct RoomTable<T> {
    entries: Vec<(RoomId, Vec<T>)>,
}

impl<T> RoomTable<T> {
    /// Some entry belongs to the room `k`.
    closed spec fn has_key(self, k: Seq<char>) -> bool {
        exists|i: int| 0 <= i < self.entries@.len() && (#[trigger] self.entries@[i]).0@ == k
    }

    /// The position of the entry of the room `k`.
    closed spec fn slot(self, k: Seq<char>) -> int {
        choose|i: int| 0 <= i < self.entries@.len() && (#[trigger] self.entries@[i]).0@ == k
    }

    /// No room has two entries.
    pub closed spec fn wf(self) -> bool {
        forall|i: int, j: int|
            0 <= i < self.entries@.len() && 0 <= j < self.entries@.len() && i != j
                ==> (#[trigger] self.entries@[i]).0@ != (#[trigger] self.entries@[j]).0@
    }

    /// The items of a room; empty where the room has no entry.
    pub open spec fn lookup(self, k: Seq<char>) -> Seq<T> {
        if self@.contains_key(k) {
            self@[k]
        } else {
            Seq::empty()
        }
    }

    proof fn lemma_slot(self, k: Seq<char>, j: int)
        requires
            self.wf(),
            0 <= j < self.entries@.len(),
            self.entries@[j].0@ == k,
        ensures
            self.has_key(k),
            self.slot(k) == j,
            self@.contains_key(k),
            self@[k] == self.entries@[j].1@,
    {
        assert(self.has_key(k));
        let s = self.slot(k);
        assert(0 <= s < self.entries@.len() && self.entries@[s].0@ == k);
    }

    /// An empty table.
    pub fn new() -> (t: Self)
        ensures
            t.wf(),
            t@ == Map::<Seq<char>, Seq<T>>::empty(),
    {
        let t = RoomTable { entries: Vec::new() };
        assert(t@ =~= Map::<Seq<char>, Seq<T>>::empty());
        t
    }

    /// The position of the entry of `key`, if it has one.
    fn find(&self, key: &RoomId) -> (pos: Option<usize>)
        requires
            self.wf(),
        ensures
            match pos {
                Some(i) => i < self.entries@.len() && self.entries@[i as int].0@ == key@,
                None => !self@.contains_key(key@),
            },
    {
        let mut i: usize = 0;
        while i < self.entries.len()
            invariant
                i <= self.entries@.len(),
                forall|j: int| 0 <= j < i ==> (#[trigger] self.entries@[j]).0@ != key@,
            decreases self.entries@.len() - i,
        {
            if self.entries[i].0 == *key {
                return Some(i);
            }
            i = i + 1;
        }
        None
    }

    /// The items of `key`, if it has an entry.
    pub fn get(&self, key: &RoomId) -> (items: Option<&Vec<T>>)
        requires
            self.wf(),
        ensures
            match items {
                Some(v) => self@.contains_key(key@) && v@ == self@[key@],
                None => !self@.contains_key(key@),
            },
    {
        match self.find(key) {
            Some(i) => {
                proof {
                    self.lemma_slot(key@, i as int);
                }
                Some(&self.entries[i].1)
            },
            None => None,
        }
    }

    /// Gives `key` the list `items`, in place of any it had.
    pub fn insert(&mut self, key: RoomId, items: Vec<T>)
        requires
            old(self).wf(),
        ensures
            final(self).wf(),
            final(self)@ == old(self)@.insert(key@, items@),
    {
        let ghost k = key@;
        let ghost items_seq = items@;
        match self.find(&key) {
            Some(i) => {
                self.entries.set(i, (key, items));
                proof {
                    self.lemma_view_after_update(*old(self), i as int, k, items_seq);
                }
            },
            None => {
                self.entries.push((key, items));
                proof {
                    self.lemma_view_after_push(*old(self), k, items_seq);
                }
            },
        }
    }

    /// Appends `item` to the list of `key`, which starts empty where the room had
    /// no entry.
    pub fn push_item(&mut self, key: RoomId, item: T)
        requires
            old(self).wf(),
        ensures
            final(self).wf(),
            final(self)@ == old(self)@.insert(key@, old(self).lookup(key@).push(item)),
    {
        let ghost k = key@;
        match self.find(&key) {
            Some(i) => {
                proof {
                    self.lemma_slot(k, i as int);
                }
                let ghost new_items = self.entries@[i as int].1@.push(item);
                self.entries[i].1.push(item);
                proof {
                    self.lemma_view_after_update(*old(self), i as int, k, new_items);
                }
            },
            None => {
                let mut items = Vec::new();
                items.push(item);
                let ghost new_items = items@;
                self.entries.push((key, items));
                proof {
                    assert(new_items =~= old(self).lookup(k).push(item));
                    self.lemma_view_after_push(*old(self), k, new_items);
                }
            },
        }
    }

    /// The entry at `i` of `prev`, which belongs to `k`, now holds `items`.
    proof fn lemma_view_after_update(self, prev: Self, i: int, k: Seq<char>, items: Seq<T>)
        requires
            prev.wf(),
            0 <= i < prev.entries@.len(),
            prev.entries@[i].0@ == k,
            self.entries@.len() == prev.entries@.len(),
            self.entries@[i].0@ == k,
            self.entries@[i].1@ == items,
            forall|j: int| 0 <= j < prev.entries@.len() && j != i ==> #[trigger] self.entries@[j] == prev.entries@[j],
        ensures
            self.wf(),
            self@ == prev@.insert(k, items),
    {
        assert forall|a: int, b: int|
            0 <= a < self.entries@.len() && 0 <= b < self.entries@.len() && a != b
            implies (#[trigger] self.entries@[a]).0@ != (#[trigger] self.entries@[b]).0@ by {
            assert(self.entries@[a].0@ == prev.entries@[a].0@);
            assert(self.entries@[b].0@ == prev.entries@[b].0@);
            assert(prev.entries@[a].0@ != prev.entries@[b].0@);
        }
        assert forall|q: Seq<char>| #[trigger] self@.contains_key(q) == prev@.insert(k, items).contains_key(q) by {
            if self.has_key(q) {
                let j = self.slot(q);
                assert(prev.entries@[j].0@ == q);
            }
            if prev.has_key(q) {
                let j = prev.slot(q);
                assert(self.entries@[j].0@ == q);
            }
        }
        assert forall|q: Seq<char>| #[trigger] self@.contains_key(q) implies self@[q] == prev@.insert(k, items)[q] by {
            let j = self.slot(q);
            self.lemma_slot(q, j);
            if q == k {
                self.lemma_slot(q, i);
            } else {
                assert(prev.entries@[j].0@ == q);
                prev.lemma_slot(q, j);
            }
        }
        assert(self@ =~= prev@.insert(k, items));
    }

    /// `self` is `prev`, which had no entry for `k`, with an entry for `k` holding
    /// `items` added at the end.
    proof fn lemma_view_after_push(self, prev: Self, k: Seq<char>, items: Seq<T>)
        requires
            prev.wf(),
            !prev@.contains_key(k),
            self.entries@.len() == prev.entries@.len() + 1,
            self.entries@.last().0@ == k,
            self.entries@.last().1@ == items,
            forall|j: int| 0 <= j < prev.entries@.len() ==> #[trigger] self.entries@[j] == prev.entries@[j],
        ensures
            self.wf(),
            self@ == prev@.insert(k, items),
    {
        let n = prev.entries@.len() as int;
        assert forall|j: int| 0 <= j < n implies (#[trigger] prev.entries@[j]).0@ != k by {
            if prev.entries@[j].0@ == k {
                assert(prev.has_key(k));
            }
        }
        assert forall|a: int, b: int|
            0 <= a < self.entries@.len() && 0 <= b < self.entries@.len() && a != b
            implies (#[trigger] self.entries@[a]).0@ != (#[trigger] self.entries@[b]).0@ by {
            if a < n && b < n {
                assert(prev.entries@[a].0@ != prev.entries@[b].0@);
            } else if a < n {
                assert(prev.entries@[a].0@ != k);
            } else {
                assert(prev.entries@[b].0@ != k);
            }
        }
        assert forall|q: Seq<char>| #[trigger] self@.contains_key(q) == prev@.insert(k, items).contains_key(q) by {
            if self.has_key(q) {
                let j = self.slot(q);
                if j < n {
                    assert(prev.entries@[j].0@ == q);
                }
            }
            if prev.has_key(q) {
                let j = prev.slot(q);
                assert(self.entries@[j].0@ == q);
            }
            if q == k {
                assert(self.entries@[n].0@ == k);
            }
        }
        assert forall|q: Seq<char>| #[trigger] self@.contains_key(q) implies self@[q] == prev@.insert(k, items)[q] by {
            let j = self.slot(q);
            self.lemma_slot(q, j);
            if q == k {
                self.lemma_slot(q, n);
            } else {
                assert(j < n);
                assert(prev.entries@[j].0@ == q);
                prev.lemma_slot(q, j);
            }
        }
        assert(self@ =~= prev@.insert(k, items));
    }
}

impl<T> View for RoomTable<T> {
    type V = Map<Seq<char>, Seq<T>>;

    closed spec fn view(&self) -> Map<Seq<char>, Seq<T>> {
        Map::new(|k: Seq<char>| self.has_key(k), |k: Seq<char>| self.entries@[self.slot(k)].1@)
    }
}

} // verus!
