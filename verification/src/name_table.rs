//! A verified association table from names to GPU resource ids. It stands in
//! for a hash map keyed by strings: entries are kept in a vector with
//! pairwise-distinct keys, and the table is viewed as a `Map` from character
//! sequences to resource ids.

use vstd::prelude::*;

verus! {

/// The map denoted by a sequence of entries; later entries win, though a
/// well-formed table never holds two entries with one key.
pub open spec fn map_of(entries: Seq<(String, u64)>) -> Map<Seq<char>, u64>
    decreases entries.len(),
{
    if entries.len() == 0 {
        Map::empty()
    } else {
        map_of(entries.drop_last()).insert(entries.last().0@, entries.last().1)
    }
}

/// Name-to-resource-id table with pairwise-distinct names.
pub struct NameTable {
    entries: Vec<(String, u64)>,
}

impl View for NameTable {
    type V = Map<Seq<char>, u64>;

    closed spec fn view(&self) -> Map<Seq<char>, u64> {
        map_of(self.entries@)
    }
}

proof fn lemma_map_of_contains(entries: Seq<(String, u64)>, k: Seq<char>)
    ensures
        map_of(entries).contains_key(k) <==> exists|i: int|
            0 <= i < entries.len() && entries[i].0@ == k,
    decreases entries.len(),
{
    if entries.len() > 0 {
        lemma_map_of_contains(entries.drop_last(), k);
        if entries.last().0@ == k {
            assert(entries[entries.len() - 1].0@ == k);
        } else if map_of(entries).contains_key(k) {
            let i = choose|i: int| 0 <= i < entries.len() - 1 && entries.drop_last()[i].0@ == k;
            assert(entries[i].0@ == k);
        } else {
            assert forall|i: int| 0 <= i < entries.len() implies entries[i].0@ != k by {
                if i < entries.len() - 1 {
                    assert(entries.drop_last()[i].0@ == entries[i].0@);
                }
            }
        }
    }
}

proof fn lemma_map_of_get(entries: Seq<(String, u64)>, i: int)
    requires
        0 <= i < entries.len(),
        forall|j: int| i < j < entries.len() ==> entries[j].0@ != entries[i].0@,
    ensures
        map_of(entries).contains_key(entries[i].0@),
        map_of(entries)[entries[i].0@] == entries[i].1,
    decreases entries.len(),
{
    if i == entries.len() - 1 {
    } else {
        assert forall|j: int| i < j < entries.drop_last().len() implies entries.drop_last()[j].0@
            != entries.drop_last()[i].0@ by {
            assert(entries.drop_last()[j].0@ == entries[j].0@);
        }
        lemma_map_of_get(entries.drop_last(), i);
        assert(entries.drop_last()[i] == entries[i]);
        assert(entries.last().0@ != entries[i].0@);
    }
}

impl NameTable {
    /// All stored names are pairwise distinct.
    pub closed spec fn wf(&self) -> bool {
        forall|i: int, j: int|
            0 <= i < j < self.entries@.len() ==> self.entries@[i].0@ != self.entries@[j].0@
    }

    pub fn new() -> (r: NameTable)
        ensures
            r.wf(),
            r@ == Map::<Seq<char>, u64>::empty(),
    {
        NameTable { entries: Vec::new() }
    }

    /// Looks a name up.
    pub fn get(&self, name: &String) -> (r: Option<u64>)
        requires
            self.wf(),
        ensures
            match r {
                Some(v) => self@.contains_key(name@) && self@[name@] == v,
                None => !self@.contains_key(name@),
            },
    {
        let n = self.entries.len();
        let mut i: usize = 0;
        while i < n
            invariant
                n == self.entries@.len(),
                0 <= i <= n,
                self.wf(),
                forall|j: int| 0 <= j < i ==> self.entries@[j].0@ != name@,
            decreases n - i,
        {
            if self.entries[i].0 == *name {
                proof {
                    lemma_map_of_get(self.entries@, i as int);
                }
                return Some(self.entries[i].1);
            }
            i += 1;
        }
        proof {
            lemma_map_of_contains(self.entries@, name@);
        }
        None
    }

    /// Whether a name is present.
    pub fn contains(&self, name: &String) -> (r: bool)
        requires
            self.wf(),
        ensures
            r == self@.contains_key(name@),
    {
        self.get(name).is_some()
    }

    /// Adds an entry under a fresh name; refuses a name already present and
    /// then changes nothing.
    pub fn insert_new(&mut self, name: String, value: u64) -> (r: bool)
        requires
            old(self).wf(),
        ensures
            final(self).wf(),
            r == !old(self)@.contains_key(name@),
            r ==> final(self)@ == old(self)@.insert(name@, value),
            !r ==> *final(self) == *old(self),
    {
        if self.contains(&name) {
            false
        } else {
            proof {
                lemma_map_of_contains(self.entries@, name@);
            }
            self.entries.push((name, value));
            proof {
                assert(self.entries@.drop_last() =~= old(self).entries@);
            }
            true
        }
    }

    /// Adds an entry, replacing the resource stored under the name if the
    /// name is already present.
    pub fn insert_or_replace(&mut self, name: String, value: u64)
        requires
            old(self).wf(),
        ensures
            final(self).wf(),
            final(self)@ == old(self)@.insert(name@, value),
    {
        let n = self.entries.len();
        let mut i: usize = 0;
        while i < n
            invariant
                n == self.entries@.len(),
                0 <= i <= n,
                self.wf(),
                self.entries@ == old(self).entries@,
                forall|j: int| 0 <= j < i ==> self.entries@[j].0@ != name@,
            decreases n - i,
        {
            if self.entries[i].0 == name {
                let ghost old_entries = self.entries@;
                self.entries[i] = (name, value);
                proof {
                    lemma_map_of_update(old_entries, i as int, self.entries@[i as int]);
                    assert forall|j: int, k: int|
                        0 <= j < k < self.entries@.len() implies self.entries@[j].0@
                        != self.entries@[k].0@ by {
                        assert(old_entries[j].0@ != old_entries[k].0@);
                    }
                }
                return ;
            }
            i += 1;
        }
        proof {
            lemma_map_of_contains(self.entries@, name@);
        }
        self.entries.push((name, value));
        proof {
            assert(self.entries@.drop_last() =~= old(self).entries@);
        }
    }
}

proof fn lemma_map_of_update(entries: Seq<(String, u64)>, i: int, pair: (String, u64))
    requires
        0 <= i < entries.len(),
        forall|j: int, k: int| 0 <= j < k < entries.len() ==> entries[j].0@ != entries[k].0@,
        pair.0@ == entries[i].0@,
    ensures
        map_of(entries.update(i, pair)) == map_of(entries).insert(pair.0@, pair.1),
    decreases entries.len(),
{
    let updated = entries.update(i, pair);
    if i == entries.len() - 1 {
        assert(updated.drop_last() =~= entries.drop_last());
        assert(updated.last() == pair);
        assert(map_of(entries.drop_last()).insert(entries.last().0@, entries.last().1).insert(
            pair.0@,
            pair.1,
        ) =~= map_of(entries.drop_last()).insert(pair.0@, pair.1));
    } else {
        assert(updated.drop_last() =~= entries.drop_last().update(i, pair));
        assert forall|j: int, k: int|
            0 <= j < k < entries.drop_last().len() implies entries.drop_last()[j].0@
            != entries.drop_last()[k].0@ by {
            assert(entries.drop_last()[j] == entries[j]);
            assert(entries.drop_last()[k] == entries[k]);
        }
        assert(entries.drop_last()[i] == entries[i]);
        lemma_map_of_update(entries.drop_last(), i, pair);
        assert(updated.last() == entries.last());
        assert(entries.last().0@ != pair.0@);
        assert(map_of(entries.drop_last()).insert(pair.0@, pair.1).insert(
            entries.last().0@,
            entries.last().1,
        ) =~= map_of(entries.drop_last()).insert(entries.last().0@, entries.last().1).insert(
            pair.0@,
            pair.1,
        ));
    }
}

} // verus!
