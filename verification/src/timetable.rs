//! A table that holds one point in time for each of a set of names.

use vstd::prelude::*;

verus! {

/// A name and the time noted for it.
#[derive(Debug)]
struct TimeEntry {
    name: String,
    time: i64,
}

/// For each of a set of names, one point in time in milliseconds since the
/// Unix epoch. Its ghost value is the map from the names to their times.
#[derive(Debug)]
pub struct Timetable {
    entries: Vec<TimeEntry>,
}

impl View for Timetable {
    type V = Map<Seq<char>, i64>;

    closed spec fn view(&self) -> Map<Seq<char>, i64> {
        Map::new(
            |name: Seq<char>| self.position(name) is Some,
            |name: Seq<char>| self.entries@[self.position(name)->0].time,
        )
    }
}

impl Timetable {
    /// No name occurs twice.
    #[verifier::type_invariant]
    spec fn distinct(&self) -> bool {
        forall|i: int, j: int|
            0 <= i < j < self.entries@.len() ==> (#[trigger] self.entries@[i]).name@ != (
            #[trigger] self.entries@[j]).name@
    }

    /// Whether the entry at `i` is that of `name`.
    spec fn holds(&self, i: int, name: Seq<char>) -> bool {
        0 <= i < self.entries@.len() && self.entries@[i].name@ == name
    }

    /// The place of the entry of `name`, if there is one.
    spec fn position(&self, name: Seq<char>) -> Option<int> {
        if exists|i: int| self.holds(i, name) {
            Some(choose|i: int| self.holds(i, name))
        } else {
            None
        }
    }

    /// The entry at `i` is the one that the ghost value speaks of.
    proof fn entry_in_view(&self, i: int)
        requires
            self.distinct(),
            0 <= i < self.entries@.len(),
        ensures
            self.position(self.entries@[i].name@) == Some(i),
            self@.dom().contains(self.entries@[i].name@),
            self@[self.entries@[i].name@] == self.entries@[i].time,
    {
        let name = self.entries@[i].name@;
        assert(self.holds(i, name));
        let j = choose|j: int| self.holds(j, name);
        assert(self.holds(j, name));
        if j < i {
            assert(self.entries@[j].name@ != self.entries@[i].name@);
        } else if i < j {
            assert(self.entries@[i].name@ != self.entries@[j].name@);
        }
    }

    /// A name without an entry is not in the ghost value.
    proof fn absent_from_view(&self, name: Seq<char>)
        requires
            forall|i: int| 0 <= i < self.entries@.len() ==> (#[trigger] self.entries@[i]).name@ != name,
        ensures
            self.position(name) is None,
            !self@.dom().contains(name),
    {
        if exists|i: int| self.holds(i, name) {
            let i = choose|i: int| self.holds(i, name);
            assert(self.holds(i, name));
            assert(self.entries@[i].name@ != name);
        }
    }

    /// An empty table.
    pub fn new() -> (table: Timetable)
        ensures
            table@ == Map::<Seq<char>, i64>::empty(),
    {
        let table = Timetable { entries: Vec::new() };
        proof {
            assert forall|name: Seq<char>| !table@.dom().contains(name) by {
                table.absent_from_view(name);
            }
            assert(table@ =~= Map::<Seq<char>, i64>::empty());
        }
        table
    }

    /// The place of the entry of `name`.
    fn find(&self, name: &String) -> (place: Option<usize>)
        ensures
            place matches Some(i) ==> self.holds(i as int, name@),
            place is None ==> forall|i: int|
                0 <= i < self.entries@.len() ==> (#[trigger] self.entries@[i]).name@ != name@,
    {
        let mut i: usize = 0;
        while i < self.entries.len()
            invariant
                i <= self.entries@.len(),
                forall|j: int| 0 <= j < i ==> (#[trigger] self.entries@[j]).name@ != name@,
            decreases self.entries@.len() - i,
        {
            if self.entries[i].name == *name {
                return Some(i);
            }
            i += 1;
        }
        None
    }

    /// Whether a time is noted for `name`.
    pub fn contains_key(&self, name: &String) -> (present: bool)
        ensures
            present == self@.dom().contains(name@),
    {
        proof {
            use_type_invariant(self);
        }
        match self.find(name) {
            Some(i) => {
                proof {
                    self.entry_in_view(i as int);
                }
                true
            },
            None => {
                proof {
                    self.absent_from_view(name@);
                }
                false
            },
        }
    }

    /// The time noted for `name`, if any.
    pub fn get(&self, name: &String) -> (time: Option<i64>)
        ensures
            time == if self@.dom().contains(name@) {
                Some(self@[name@])
            } else {
                None
            },
    {
        proof {
            use_type_invariant(self);
        }
        match self.find(name) {
            Some(i) => {
                proof {
                    self.entry_in_view(i as int);
                }
                Some(self.entries[i].time)
            },
            None => {
                proof {
                    self.absent_from_view(name@);
                }
                None
            },
        }
    }

    /// Notes `time` for `name`, in place of any time noted for it before.
    pub fn insert(&mut self, name: String, time: i64)
        ensures
            final(self)@ == old(self)@.insert(name@, time),
    {
        proof {
            use_type_invariant(&*self);
        }
        let ghost before = *self;
        let ghost key = name@;
        let place = self.find(&name);
        let mut entries: Vec<TimeEntry> = Vec::new();
        core::mem::swap(&mut self.entries, &mut entries);
        match place {
            Some(i) => {
                entries.set(i, TimeEntry { name, time });
                proof {
                    assert forall|a: int, b: int| 0 <= a < b < entries@.len() implies (
                    #[trigger] entries@[a]).name@ != (#[trigger] entries@[b]).name@ by {
                        assert(entries@[a].name@ == before.entries@[a].name@);
                        assert(entries@[b].name@ == before.entries@[b].name@);
                    }
                }
                self.entries = entries;
                proof {
                    assert forall|k: Seq<char>|
                        self@.dom().contains(k) == #[trigger] before@.insert(key, time).dom().contains(k)
                        && (self@.dom().contains(k) ==> self@[k] == before@.insert(key, time)[k]) by {
                        if k == key {
                            self.entry_in_view(i as int);
                        } else if before.position(k) is Some {
                            let p = before.position(k)->0;
                            assert(before.holds(p, k));
                            assert(self.entries@[p].name@ == before.entries@[p].name@);
                            self.entry_in_view(p);
                        } else {
                            assert forall|j: int| 0 <= j < self.entries@.len() implies (
                            #[trigger] self.entries@[j]).name@ != k by {
                                assert(!before.holds(j, k));
                                assert(self.entries@[j].name@ == before.entries@[j].name@);
                            }
                            self.absent_from_view(k);
                        }
                    }
                    assert(self@ =~= before@.insert(key, time));
                }
            },
            None => {
                entries.push(TimeEntry { name, time });
                proof {
                    assert forall|a: int, b: int| 0 <= a < b < entries@.len() implies (
                    #[trigger] entries@[a]).name@ != (#[trigger] entries@[b]).name@ by {
                        assert(entries@[a] == before.entries@[a]);
                        if b < before.entries@.len() {
                            assert(entries@[b] == before.entries@[b]);
                        }
                    }
                }
                self.entries = entries;
                proof {
                    let n = before.entries@.len() as int;
                    assert forall|k: Seq<char>|
                        self@.dom().contains(k) == #[trigger] before@.insert(key, time).dom().contains(k)
                        && (self@.dom().contains(k) ==> self@[k] == before@.insert(key, time)[k]) by {
                        if k == key {
                            self.entry_in_view(n);
                        } else if before.position(k) is Some {
                            let p = before.position(k)->0;
                            assert(before.holds(p, k));
                            assert(self.entries@[p] == before.entries@[p]);
                            self.entry_in_view(p);
                        } else {
                            assert forall|j: int| 0 <= j < self.entries@.len() implies (
                            #[trigger] self.entries@[j]).name@ != k by {
                                if j < n {
                                    assert(!before.holds(j, k));
                                    assert(self.entries@[j] == before.entries@[j]);
                                }
                            }
                            self.absent_from_view(k);
                        }
                    }
                    assert(self@ =~= before@.insert(key, time));
                }
            },
        }
    }

    /// Forgets the time noted for `name`, if any.
    pub fn remove(&mut self, name: &String)
        ensures
            final(self)@ == old(self)@.remove(name@),
    {
        proof {
            use_type_invariant(&*self);
        }
        let ghost before = *self;
        let ghost key = name@;
        match self.find(name) {
            Some(i) => {
                let mut entries: Vec<TimeEntry> = Vec::new();
                core::mem::swap(&mut self.entries, &mut entries);
                entries.remove(i);
                proof {
                    assert forall|a: int, b: int| 0 <= a < b < entries@.len() implies (
                    #[trigger] entries@[a]).name@ != (#[trigger] entries@[b]).name@ by {
                        let qa = if a < i { a } else { a + 1 };
                        let qb = if b < i { b } else { b + 1 };
                        assert(entries@[a] == before.entries@[qa]);
                        assert(entries@[b] == before.entries@[qb]);
                    }
                }
                self.entries = entries;
                proof {
                    assert forall|k: Seq<char>|
                        self@.dom().contains(k) == #[trigger] before@.remove(key).dom().contains(k) && (
                        self@.dom().contains(k) ==> self@[k] == before@.remove(key)[k]) by {
                        if k == key {
                            assert forall|j: int| 0 <= j < self.entries@.len() implies (
                            #[trigger] self.entries@[j]).name@ != k by {
                                let q = if j < i { j } else { j + 1 };
                                assert(self.entries@[j] == before.entries@[q]);
                                if q < i {
                                    assert(before.entries@[q].name@ != before.entries@[i as int].name@);
                                } else {
                                    assert(before.entries@[i as int].name@ != before.entries@[q].name@);
                                }
                            }
                            self.absent_from_view(k);
                        } else if before.position(k) is Some {
                            let p = before.position(k)->0;
                            assert(before.holds(p, k));
                            let q = if p < i { p } else { p - 1 };
                            assert(self.entries@[q] == before.entries@[p]);
                            self.entry_in_view(q);
                        } else {
                            assert forall|j: int| 0 <= j < self.entries@.len() implies (
                            #[trigger] self.entries@[j]).name@ != k by {
                                let q = if j < i { j } else { j + 1 };
                                assert(self.entries@[j] == before.entries@[q]);
                                assert(!before.holds(q, k));
                            }
                            self.absent_from_view(k);
                        }
                    }
                    assert(self@ =~= before@.remove(key));
                }
            },
            None => {
                proof {
                    self.absent_from_view(key);
                    assert(self@ =~= before@.remove(key));
                }
            },
        }
    }

    /// The names for which a time is noted, each once.
    pub fn keys(&self) -> (names: Vec<String>)
        ensures
            names.deep_view().no_duplicates(),
            names.deep_view().to_set() == self@.dom(),
    {
        proof {
            use_type_invariant(self);
        }
        let mut names: Vec<String> = Vec::new();
        let mut i: usize = 0;
        while i < self.entries.len()
            invariant
                i <= self.entries@.len(),
                names@.len() == i,
                forall|j: int| 0 <= j < i ==> (#[trigger] names@[j])@ == self.entries@[j].name@,
            decreases self.entries@.len() - i,
        {
            names.push(self.entries[i].name.clone());
            i += 1;
        }
        proof {
            let views = names.deep_view();
            assert(views.len() == self.entries@.len());
            assert forall|j: int| 0 <= j < views.len() implies #[trigger] views[j]
                == self.entries@[j].name@ by {
                assert(names@[j]@ == self.entries@[j].name@);
            }
            assert forall|a: int, b: int| 0 <= a < views.len() && 0 <= b < views.len() && a != b
                implies views[a] != views[b] by {
                if a < b {
                    assert(self.entries@[a].name@ != self.entries@[b].name@);
                } else {
                    assert(self.entries@[b].name@ != self.entries@[a].name@);
                }
            }
            assert forall|k: Seq<char>| views.to_set().contains(k) == self@.dom().contains(k) by {
                if views.to_set().contains(k) {
                    let j = choose|j: int| 0 <= j < views.len() && views[j] == k;
                    self.entry_in_view(j);
                }
                if self@.dom().contains(k) {
                    let p = self.position(k)->0;
                    assert(self.holds(p, k));
                    assert(views[p] == k);
                }
            }
            assert(views.to_set() =~= self@.dom());
        }
        names
    }
}

} // verus!
