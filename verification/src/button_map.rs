//! The bindings of a mouse: a map from button names to what the button does.
use vstd::prelude::*;

use crate::text::same_text;

verus! {

/// A map from text to text in which the keys keep the order in which they first
/// came.
#[derive(Debug)]
pub struct ButtonMap {
    pub entries: Vec<(String, String)>,
}

/// The place of a key in a list of entries.
pub open spec fn holds_key(entries: Seq<(String, String)>, key: Seq<char>, i: int) -> bool {
    0 <= i < entries.len() && entries[i].0@ == key
}

pub open spec fn has_key(entries: Seq<(String, String)>, key: Seq<char>) -> bool {
    exists|i: int| holds_key(entries, key, i)
}

pub open spec fn place_of(entries: Seq<(String, String)>, key: Seq<char>) -> int {
    choose|i: int| holds_key(entries, key, i)
}

impl ButtonMap {
    /// No key occurs twice.
    pub open spec fn inv(self) -> bool {
        forall|i: int, j: int|
            0 <= i < self.entries@.len() && 0 <= j < self.entries@.len() && (
            #[trigger] self.entries@[i]).0@ == (#[trigger] self.entries@[j]).0@ ==> i == j
    }
}

impl View for ButtonMap {
    type V = Map<Seq<char>, Seq<char>>;

    open spec fn view(&self) -> Map<Seq<char>, Seq<char>> {
        Map::new(
            |k: Seq<char>| has_key(self.entries@, k),
            |k: Seq<char>| self.entries@[place_of(self.entries@, k)].1@,
        )
    }
}

impl ButtonMap {
    /// A map without entries.
    pub fn new() -> (r: ButtonMap)
        ensures
            r.inv(),
            r@ == Map::<Seq<char>, Seq<char>>::empty(),
            r.entries@ == Seq::<(String, String)>::empty(),
    {
        let r = ButtonMap { entries: Vec::new() };
        assert(r@ =~= Map::<Seq<char>, Seq<char>>::empty());
        r
    }

    proof fn entry_is_mapped(self, i: int)
        requires
            self.inv(),
            0 <= i < self.entries@.len(),
        ensures
            self@.contains_key(self.entries@[i].0@),
            self@[self.entries@[i].0@] == self.entries@[i].1@,
    {
        let key = self.entries@[i].0@;
        assert(holds_key(self.entries@, key, i));
        assert(holds_key(self.entries@, key, place_of(self.entries@, key)));
    }

    /// The place of a key.
    fn find(&self, key: &str) -> (r: Option<usize>)
        requires
            self.inv(),
        ensures
            match r {
                Some(i) => holds_key(self.entries@, key@, i as int) && self@.contains_key(key@)
                    && self@[key@] == self.entries@[i as int].1@,
                None => !self@.contains_key(key@),
            },
    {
        let mut i: usize = 0;
        while i < self.entries.len()
            invariant
                i <= self.entries@.len(),
                self.inv(),
                forall|k: int| 0 <= k < i ==> (#[trigger] self.entries@[k]).0@ != key@,
            decreases self.entries@.len() - i,
        {
            if same_text(self.entries[i].0.as_str(), key) {
                proof {
                    self.entry_is_mapped(i as int);
                }
                return Some(i);
            }
            i += 1;
        }
        assert(!has_key(self.entries@, key@)) by {
            if has_key(self.entries@, key@) {
                let j = place_of(self.entries@, key@);
                assert(holds_key(self.entries@, key@, j));
                assert(self.entries@[j].0@ == key@);
            }
        }
        None
    }

    /// The value of a key.
    pub fn get(&self, key: &str) -> (r: Option<String>)
        requires
            self.inv(),
        ensures
            match r {
                Some(v) => self@.contains_key(key@) && v@ == self@[key@],
                None => !self@.contains_key(key@),
            },
    {
        match self.find(key) {
            Some(i) => Some(self.entries[i].1.clone()),
            None => None,
        }
    }

    /// Sets the value of a key.
    pub fn insert(&mut self, key: String, value: String)
        requires
            old(self).inv(),
        ensures
            final(self).inv(),
            final(self)@ == old(self)@.insert(key@, value@),
    {
        let ghost before = *self;
        match self.find(key.as_str()) {
            Some(i) => {
                self.entries.set(i, (key, value));
                assert forall|k: Seq<char>| self@.contains_key(k) <==> before@.insert(
                    key@,
                    value@,
                ).contains_key(k) by {
                    if before@.contains_key(k) {
                        let p = place_of(before.entries@, k);
                        assert(holds_key(before.entries@, k, p));
                        assert(holds_key(self.entries@, k, p));
                    }
                    if self@.contains_key(k) {
                        let p = place_of(self.entries@, k);
                        assert(holds_key(self.entries@, k, p));
                        assert(holds_key(before.entries@, k, p));
                    }
                }
                assert(self.inv()) by {
                    assert forall|a: int, b: int|
                        0 <= a < self.entries@.len() && 0 <= b < self.entries@.len() && (
                        #[trigger] self.entries@[a]).0@ == (#[trigger] self.entries@[b]).0@ implies a
                        == b by {
                        assert(before.entries@[a].0@ == self.entries@[a].0@);
                        assert(before.entries@[b].0@ == self.entries@[b].0@);
                    }
                }
                assert forall|k: Seq<char>| self@.contains_key(k) implies self@[k] == before@.insert(
                    key@,
                    value@,
                )[k] by {
                    let p = place_of(self.entries@, k);
                    assert(holds_key(self.entries@, k, p));
                    before.entry_is_mapped(p);
                    self.entry_is_mapped(p);
                }
                assert(self@ =~= before@.insert(key@, value@));
            },
            None => {
                self.entries.push((key, value));
                assert(self.inv()) by {
                    let n = before.entries@.len() as int;
                    assert forall|a: int, b: int|
                        0 <= a < self.entries@.len() && 0 <= b < self.entries@.len() && (
                        #[trigger] self.entries@[a]).0@ == (#[trigger] self.entries@[b]).0@ implies a
                        == b by {
                        if a < n {
                            before.entry_is_mapped(a);
                            assert(before.entries@[a] == self.entries@[a]);
                        }
                        if b < n {
                            before.entry_is_mapped(b);
                            assert(before.entries@[b] == self.entries@[b]);
                        }
                    }
                }
                assert forall|k: Seq<char>| self@.contains_key(k) <==> before@.insert(
                    key@,
                    value@,
                ).contains_key(k) by {
                    if before@.contains_key(k) {
                        let p = place_of(before.entries@, k);
                        assert(holds_key(before.entries@, k, p));
                        assert(holds_key(self.entries@, k, p));
                    }
                    assert(holds_key(self.entries@, key@, before.entries@.len() as int));
                    if self@.contains_key(k) {
                        let p = place_of(self.entries@, k);
                        assert(holds_key(self.entries@, k, p));
                        if p < before.entries@.len() {
                            assert(holds_key(before.entries@, k, p));
                        }
                    }
                }
                assert forall|k: Seq<char>| self@.contains_key(k) implies self@[k] == before@.insert(
                    key@,
                    value@,
                )[k] by {
                    let p = place_of(self.entries@, k);
                    assert(holds_key(self.entries@, k, p));
                    self.entry_is_mapped(p);
                    if p < before.entries@.len() {
                        before.entry_is_mapped(p);
                        assert(before.entries@[p] == self.entries@[p]);
                    }
                }
                assert(self@ =~= before@.insert(key@, value@));
            },
        }
    }

    /// Removes a key.
    pub fn remove(&mut self, key: &str)
        requires
            old(self).inv(),
        ensures
            final(self).inv(),
            final(self)@ == old(self)@.remove(key@),
    {
        let ghost before = *self;
        match self.find(key) {
            None => {
                assert(self@ =~= before@.remove(key@));
            },
            Some(i) => {
                self.entries.remove(i);
                let ghost old_entries = before.entries@;
                assert(forall|a: int|
                    0 <= a < self.entries@.len() ==> #[trigger] self.entries@[a] == old_entries[if a
                        < i {
                        a
                    } else {
                        a + 1
                    }]);
                assert(self.inv()) by {
                    assert forall|a: int, b: int|
                        0 <= a < self.entries@.len() && 0 <= b < self.entries@.len() && (
                        #[trigger] self.entries@[a]).0@ == (#[trigger] self.entries@[b]).0@ implies a
                        == b by {
                        let x = if a < i { a } else { a + 1 };
                        let y = if b < i { b } else { b + 1 };
                        assert(old_entries[x].0@ == old_entries[y].0@);
                    }
                }
                assert forall|k: Seq<char>| self@.contains_key(k) <==> before@.remove(
                    key@,
                ).contains_key(k) by {
                    if before@.contains_key(k) && k != key@ {
                        let p = place_of(old_entries, k);
                        assert(holds_key(old_entries, k, p));
                        let q = if p < i { p } else { p - 1 };
                        assert(self.entries@[q] == old_entries[p]);
                        assert(holds_key(self.entries@, k, q));
                    }
                    if self@.contains_key(k) {
                        let q = place_of(self.entries@, k);
                        assert(holds_key(self.entries@, k, q));
                        let p = if q < i { q } else { q + 1 };
                        assert(holds_key(old_entries, k, p));
                        if k == key@ {
                            assert(old_entries[p].0@ == old_entries[i as int].0@);
                        }
                    }
                }
                assert forall|k: Seq<char>| self@.contains_key(k) implies self@[k] == before@.remove(
                    key@,
                )[k] by {
                    let q = place_of(self.entries@, k);
                    assert(holds_key(self.entries@, k, q));
                    self.entry_is_mapped(q);
                    let p = if q < i { q } else { q + 1 };
                    before.entry_is_mapped(p);
                }
                assert(self@ =~= before@.remove(key@));
            },
        }
    }

    /// A copy of the map.
    pub fn duplicate(&self) -> (r: ButtonMap)
        requires
            self.inv(),
        ensures
            r.inv(),
            r@ == self@,
            r.entries@ == self.entries@,
    {
        let mut entries: Vec<(String, String)> = Vec::new();
        let mut i: usize = 0;
        while i < self.entries.len()
            invariant
                i <= self.entries@.len(),
                entries@ == self.entries@.take(i as int),
            decreases self.entries@.len() - i,
        {
            let key = self.entries[i].0.clone();
            let value = self.entries[i].1.clone();
            entries.push((key, value));
            assert(entries@ =~= self.entries@.take(i + 1));
            i += 1;
        }
        assert(entries@ =~= self.entries@);
        let r = ButtonMap { entries };
        assert(r@ =~= self@);
        r
    }
}

} // verus!
