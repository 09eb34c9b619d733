//! Sets and tables keyed by a routine.

use vstd::prelude::*;

use crate::text::text_equal;

verus! {

/// A set of routine ids; none is held twice.
#[derive(Debug)]
pub struct RoutineSet {
    ids: Vec<String>,
}

impl View for RoutineSet {
    type V = Set<Seq<char>>;

    closed spec fn view(&self) -> Set<Seq<char>> {
        Set::new(|id: Seq<char>| exists|i: int| 0 <= i < self.ids@.len() && (#[trigger] self.ids@[i])@ == id)
    }
}

impl RoutineSet {
    #[verifier::type_invariant]
    spec fn well_formed(self) -> bool {
        forall|i: int, j: int|
            0 <= i < j < self.ids@.len() ==> (#[trigger] self.ids@[i])@ != (#[trigger] self.ids@[j])@
    }

    pub fn new() -> (r: RoutineSet)
        ensures
            r@ == Set::<Seq<char>>::empty(),
    {
        let r = RoutineSet { ids: Vec::new() };
        assert(r@ =~= Set::empty());
        r
    }

    /// Whether the routine is in the set.
    pub fn contains(&self, id: &str) -> (r: bool)
        ensures
            r == self@.contains(id@),
    {
        let mut i: usize = 0;
        while i < self.ids.len()
            invariant
                i <= self.ids@.len(),
                forall|j: int| 0 <= j < i ==> (#[trigger] self.ids@[j])@ != id@,
            decreases self.ids@.len() - i,
        {
            if text_equal(self.ids[i].as_str(), id) {
                assert(self.ids@[i as int]@ == id@);
                return true;
            }
            i += 1;
        }
        false
    }

    /// Puts a routine into the set.
    pub fn insert(&mut self, id: String)
        ensures
            final(self)@ == old(self)@.insert(id@),
    {
        proof {
            use_type_invariant(&*self);
        }
        if self.contains(id.as_str()) {
            assert(self@ =~= old(self)@.insert(id@));
            return ;
        }
        let mut ids: Vec<String> = Vec::new();
        std::mem::swap(&mut self.ids, &mut ids);
        let ghost before = ids@;
        let ghost text = id@;
        assert forall|j: int| 0 <= j < before.len() implies (#[trigger] before[j])@ != text by {
            assert(old(self).ids@[j]@ == before[j]@);
            if before[j]@ == text {
                assert(old(self)@.contains(text));
            }
        }
        ids.push(id);
        self.ids = ids;
        assert(self@ =~= old(self)@.insert(text)) by {
            assert forall|k: Seq<char>| self@.contains(k) implies old(self)@.insert(text).contains(
                k,
            ) by {
                let i = choose|i: int| 0 <= i < self.ids@.len() && (#[trigger] self.ids@[i])@ == k;
                if i < before.len() {
                    assert(old(self).ids@[i]@ == k);
                }
            }
            assert forall|k: Seq<char>| old(self)@.insert(text).contains(k) implies self@.contains(
                k,
            ) by {
                if k == text {
                    assert(self.ids@[before.len() as int]@ == k);
                } else {
                    let i = choose|i: int|
                        0 <= i < old(self).ids@.len() && (#[trigger] old(self).ids@[i])@ == k;
                    assert(self.ids@[i]@ == k);
                }
            }
        }
    }
}

/// One entry of a [`RoutineTimes`] table.
#[derive(Debug)]
struct RoutineTime {
    id: String,
    ts_ns: u64,
}

/// A table from routine ids to instants; no routine has two entries.
#[derive(Debug)]
pub struct RoutineTimes {
    entries: Vec<RoutineTime>,
}

spec fn entry_of(entries: Seq<RoutineTime>, id: Seq<char>, i: int) -> bool {
    0 <= i < entries.len() && entries[i].id@ == id
}

impl View for RoutineTimes {
    type V = Map<Seq<char>, u64>;

    closed spec fn view(&self) -> Map<Seq<char>, u64> {
        Map::new(
            |id: Seq<char>| exists|i: int| #[trigger] entry_of(self.entries@, id, i),
            |id: Seq<char>|
                self.entries@[choose|i: int| #[trigger] entry_of(self.entries@, id, i)].ts_ns,
        )
    }
}

spec fn ids_distinct(entries: Seq<RoutineTime>) -> bool {
    forall|i: int, j: int|
        0 <= i < j < entries.len() ==> (#[trigger] entries[i]).id@ != (#[trigger] entries[j]).id@
}

impl RoutineTimes {
    #[verifier::type_invariant]
    spec fn well_formed(self) -> bool {
        ids_distinct(self.entries@)
    }

    pub fn new() -> (r: RoutineTimes)
        ensures
            r@ == Map::<Seq<char>, u64>::empty(),
    {
        let r = RoutineTimes { entries: Vec::new() };
        assert(r@ =~= Map::empty());
        r
    }

    proof fn lemma_entry(self, i: int)
        requires
            ids_distinct(self.entries@),
            0 <= i < self.entries@.len(),
        ensures
            self@.contains_key(self.entries@[i].id@),
            self@[self.entries@[i].id@] == self.entries@[i].ts_ns,
    {
        let id = self.entries@[i].id@;
        assert(entry_of(self.entries@, id, i));
        let c = choose|c: int| #[trigger] entry_of(self.entries@, id, c);
        assert(entry_of(self.entries@, id, c));
        if c < i {
            assert(self.entries@[c].id@ != self.entries@[i].id@);
        } else if i < c {
            assert(self.entries@[i].id@ != self.entries@[c].id@);
        }
    }

    fn find(&self, id: &str) -> (r: Option<usize>)
        ensures
            match r {
                Some(i) => entry_of(self.entries@, id@, i as int),
                None => forall|i: int| !#[trigger] entry_of(self.entries@, id@, i),
            },
    {
        let mut i: usize = 0;
        while i < self.entries.len()
            invariant
                i <= self.entries@.len(),
                forall|j: int| 0 <= j < i ==> (#[trigger] self.entries@[j]).id@ != id@,
            decreases self.entries@.len() - i,
        {
            if text_equal(self.entries[i].id.as_str(), id) {
                return Some(i);
            }
            i += 1;
        }
        None
    }

    /// The instant of a routine.
    pub fn get(&self, id: &str) -> (r: Option<u64>)
        ensures
            match r {
                Some(ts) => self@.contains_key(id@) && self@[id@] == ts,
                None => !self@.contains_key(id@),
            },
    {
        proof {
            use_type_invariant(self);
        }
        match self.find(id) {
            Some(i) => {
                proof {
                    self.lemma_entry(i as int);
                }
                Some(self.entries[i].ts_ns)
            },
            None => None,
        }
    }

    /// Sets the instant of a routine.
    pub fn insert(&mut self, id: String, ts_ns: u64)
        ensures
            final(self)@ == old(self)@.insert(id@, ts_ns),
    {
        proof {
            use_type_invariant(&*self);
        }
        let ghost text = id@;
        let found = self.find(id.as_str());
        let mut entries: Vec<RoutineTime> = Vec::new();
        std::mem::swap(&mut self.entries, &mut entries);
        let ghost before = entries@;
        match found {
            Some(i) => {
                entries[i] = RoutineTime { id, ts_ns };
                assert(entries@.len() == before.len());
                assert forall|k: int| 0 <= k < before.len() implies (#[trigger] entries@[k]).id@
                    == before[k].id@ by {}
                assert(ids_distinct(entries@)) by {
                    assert forall|a: int, b: int| 0 <= a < b < entries@.len() implies (
                    #[trigger] entries@[a]).id@ != (#[trigger] entries@[b]).id@ by {
                        assert(before[a].id@ != before[b].id@);
                    }
                }
            },
            None => {
                assert forall|j: int| 0 <= j < before.len() implies (#[trigger] before[j]).id@
                    != text by {
                    assert(!entry_of(before, text, j));
                }
                entries.push(RoutineTime { id, ts_ns });
            },
        }
        let ghost after = entries@;
        self.entries = entries;
        proof {
            let new_map = self@;
            let old_map = old(self)@.insert(text, ts_ns);
            assert forall|k: Seq<char>| new_map.contains_key(k) == old_map.contains_key(k) by {
                if new_map.contains_key(k) {
                    let i = choose|i: int| #[trigger] entry_of(after, k, i);
                    assert(entry_of(after, k, i));
                    if i < before.len() {
                        assert(entry_of(before, k, i));
                    }
                }
                if old_map.contains_key(k) {
                    if k == text {
                        let at = match found {
                            Some(i) => i as int,
                            None => before.len() as int,
                        };
                        assert(entry_of(after, k, at));
                    } else {
                        let i = choose|i: int| #[trigger] entry_of(before, k, i);
                        assert(entry_of(before, k, i));
                        assert(entry_of(after, k, i));
                    }
                }
            }
            assert forall|k: Seq<char>| new_map.contains_key(k) implies #[trigger] new_map[k]
                == old_map[k] by {
                let i = choose|i: int| #[trigger] entry_of(after, k, i);
                assert(entry_of(after, k, i));
                self.lemma_entry(i);
                if k == text {
                    let at = match found {
                        Some(i) => i as int,
                        None => before.len() as int,
                    };
                    assert(entry_of(after, k, at));
                    self.lemma_entry(at);
                } else {
                    assert(i < before.len());
                    assert(before[i] == after[i]);
                    old(self).lemma_entry(i);
                }
            }
            assert(new_map =~= old_map);
        }
    }
}

} // verus!
