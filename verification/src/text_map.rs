//! A small map from text keys to values, each key held once.

use vstd::prelude::*;
use vstd::string::*;

verus! {

/// Values by text key; each key occurs once.
pub struct TextMap<V> {
    entries: Vec<(String, V)>,
}

impl<V> TextMap<V> {
    /// No key occurs twice.
    pub closed spec fn well_formed(&self) -> bool {
        forall|i: int, j: int|
            0 <= i < j < self.entries@.len() ==> #[trigger] self.entries@[i].0@ != #[trigger] self.entries@[j].0@
    }

    /// Whether the map holds `url`.
    pub closed spec fn has(&self, url: Seq<char>) -> bool {
        exists|i: int| 0 <= i < self.entries@.len() && #[trigger] self.entries@[i].0@ == url
    }

    /// The value held for `url`.
    pub closed spec fn art_of(&self, url: Seq<char>) -> V {
        let i = choose|i: int| 0 <= i < self.entries@.len() && #[trigger] self.entries@[i].0@ == url;
        self.entries@[i].1
    }

    /// The map's content.
    pub closed spec fn as_map(&self) -> Map<Seq<char>, V> {
        Map::new(|url: Seq<char>| self.has(url), |url: Seq<char>| self.art_of(url))
    }

    /// An empty map.
    pub fn new() -> (r: Self)
        ensures
            r.well_formed(),
            r.as_map() == Map::<Seq<char>, V>::empty(),
    {
        let r = TextMap { entries: Vec::new() };
        assert(r.as_map() =~= Map::<Seq<char>, V>::empty());
        r
    }

    /// The index of `url`, if the map holds it.
    fn index_of(&self, url: &str) -> (r: Option<usize>)
        requires
            self.well_formed(),
        ensures
            r matches Some(i) ==> i < self.entries@.len() && self.entries@[i as int].0@ == url@
                && self.art_of(url@) == self.entries@[i as int].1,
            r is None ==> !self.has(url@),
    {
        let mut i: usize = 0;
        while i < self.entries.len()
            invariant
                self.well_formed(),
                i <= self.entries@.len(),
                forall|j: int| 0 <= j < i ==> #[trigger] self.entries@[j].0@ != url@,
            decreases self.entries.len() - i,
        {
            if self.entries[i].0 == String::from_str(url) {
                assert(self.has(url@));
                let ghost k = choose|k: int| 0 <= k < self.entries@.len() && #[trigger] self.entries@[k].0@ == url@;
                assert(k == i) by {
                    if k < i {
                    } else if k > i {
                        assert(self.entries@[i as int].0@ != self.entries@[k].0@);
                    }
                }
                return Some(i);
            }
            i = i + 1;
        }
        None
    }

    /// The value held for `url`, if any.
    pub fn get(&self, url: &str) -> (r: Option<&V>)
        requires
            self.well_formed(),
        ensures
            r matches Some(a) ==> self.as_map().contains_key(url@) && self.as_map()[url@] == *a,
            r is None ==> !self.as_map().contains_key(url@),
    {
        match self.index_of(url) {
            Some(i) => Some(&self.entries[i].1),
            None => None,
        }
    }

    /// Stores `art` under `url`, replacing what was held for it.
    pub fn insert(&mut self, url: String, art: V)
        requires
            old(self).well_formed(),
        ensures
            final(self).well_formed(),
            final(self).as_map() == old(self).as_map().insert(url@, art),
    {
        match self.index_of(url.as_str()) {
            Some(i) => {
                let ghost before = self.entries@;
                self.entries.set(i, (url, art));
                proof {
                    assert forall|k: Seq<char>| #[trigger] self.has(k) == old(self).has(k) by {
                        if old(self).has(k) {
                            let j = choose|j: int| 0 <= j < before.len() && #[trigger] before[j].0@ == k;
                            assert(self.entries@[j].0@ == k);
                        }
                        if self.has(k) {
                            let j = choose|j: int| 0 <= j < self.entries@.len() && #[trigger] self.entries@[j].0@ == k;
                            assert(before[j].0@ == k);
                        }
                    }
                    assert forall|k: Seq<char>| self.has(k) && k != url@ implies #[trigger] self.art_of(k) == old(self).art_of(k) by {
                        let j = choose|j: int| 0 <= j < self.entries@.len() && #[trigger] self.entries@[j].0@ == k;
                        let j2 = choose|j: int| 0 <= j < before.len() && #[trigger] before[j].0@ == k;
                        assert(before[j].0@ == k);
                        if j != j2 {
                            if j < j2 {
                                assert(before[j].0@ != before[j2].0@);
                            } else {
                                assert(before[j2].0@ != before[j].0@);
                            }
                        }
                    }
                    assert(self.has(url@)) by {
                        assert(self.entries@[i as int].0@ == url@);
                    }
                    assert(self.art_of(url@) == art) by {
                        let j = choose|j: int| 0 <= j < self.entries@.len() && #[trigger] self.entries@[j].0@ == url@;
                        if j != i {
                            if j < i {
                                assert(self.entries@[j].0@ != self.entries@[i as int].0@);
                            } else {
                                assert(self.entries@[i as int].0@ != self.entries@[j].0@);
                            }
                        }
                    }
                    assert(self.as_map() =~= old(self).as_map().insert(url@, art));
                }
            },
            None => {
                let ghost before = self.entries@;
                self.entries.push((url, art));
                proof {
                    let n = before.len() as int;
                    assert(self.entries@[n].0@ == url@);
                    assert forall|k: Seq<char>| k != url@ implies #[trigger] self.has(k) == old(self).has(k) by {
                        if old(self).has(k) {
                            let j = choose|j: int| 0 <= j < before.len() && #[trigger] before[j].0@ == k;
                            assert(self.entries@[j].0@ == k);
                        }
                        if self.has(k) {
                            let j = choose|j: int| 0 <= j < self.entries@.len() && #[trigger] self.entries@[j].0@ == k;
                            assert(j < n);
                            assert(before[j].0@ == k);
                        }
                    }
                    assert forall|k: Seq<char>| self.has(k) && k != url@ implies #[trigger] self.art_of(k) == old(self).art_of(k) by {
                        let j = choose|j: int| 0 <= j < self.entries@.len() && #[trigger] self.entries@[j].0@ == k;
                        let j2 = choose|j: int| 0 <= j < before.len() && #[trigger] before[j].0@ == k;
                        assert(j < n);
                        assert(before[j].0@ == k);
                        if j != j2 {
                            if j < j2 {
                                assert(before[j].0@ != before[j2].0@);
                            } else {
                                assert(before[j2].0@ != before[j].0@);
                            }
                        }
                    }
                    assert(self.has(url@));
                    assert(self.art_of(url@) == art) by {
                        let j = choose|j: int| 0 <= j < self.entries@.len() && #[trigger] self.entries@[j].0@ == url@;
                        if j != n {
                            assert(before[j].0@ == url@);
                            assert(old(self).has(url@));
                        }
                    }
                    assert(self.as_map() =~= old(self).as_map().insert(url@, art));
                }
            },
        }
    }
}

} // verus!
