//! The authoritative record of step completion: a map from step identifier
//! to completion flag, stored as a vector of entries with pairwise distinct
//! keys and viewed as a mathematical `Map<Seq<char>, bool>`.

use vstd::prelude::*;

verus! {

/// A mapping from step identifier to completion flag.
#[derive(Debug)]
pub struct ProgressMap {
    entries: Vec<(String, bool)>,
}

/// The map denoted by a sequence of entries; later entries win.
pub closed spec fn map_of(entries: Seq<(String, bool)>) -> Map<Seq<char>, bool>
    decreases entries.len(),
{
    if entries.len() == 0 {
        Map::empty()
    } else {
        map_of(entries.drop_last()).insert(entries.last().0@, entries.last().1)
    }
}

/// No two entries share a key.
pub closed spec fn distinct_keys(entries: Seq<(String, bool)>) -> bool {
    forall|i: int, j: int|
        0 <= i < j < entries.len() ==> #[trigger] entries[i].0@ != #[trigger] entries[j].0@
}

impl View for ProgressMap {
    type V = Map<Seq<char>, bool>;

    closed spec fn view(&self) -> Map<Seq<char>, bool> {
        map_of(self.entries@)
    }
}

proof fn lemma_map_of_membership(entries: Seq<(String, bool)>, key: Seq<char>)
    ensures
        map_of(entries).contains_key(key) <==> exists|i: int|
            0 <= i < entries.len() && #[trigger] entries[i].0@ == key,
    decreases entries.len(),
{
    if entries.len() > 0 {
        lemma_map_of_membership(entries.drop_last(), key);
        if entries.last().0@ != key {
            assert forall|i: int|
                0 <= i < entries.len() && #[trigger] entries[i].0@ == key implies map_of(
                entries,
            ).contains_key(key) by {
                assert(entries.drop_last()[i] == entries[i]);
            }
            if map_of(entries).contains_key(key) {
                let i = choose|i: int|
                    0 <= i < entries.drop_last().len() && #[trigger] entries.drop_last()[i].0@
                        == key;
                assert(entries[i].0@ == key);
            }
        }
    }
}

proof fn lemma_map_of_lookup(entries: Seq<(String, bool)>, i: int)
    requires
        distinct_keys(entries),
        0 <= i < entries.len(),
    ensures
        map_of(entries).contains_key(entries[i].0@),
        map_of(entries)[entries[i].0@] == entries[i].1,
    decreases entries.len(),
{
    if i == entries.len() - 1 {
        assert(entries.last() == entries[i]);
    } else {
        lemma_map_of_lookup(entries.drop_last(), i);
        assert(entries.drop_last()[i] == entries[i]);
        assert(entries.last().0@ != entries[i].0@);
    }
}

proof fn lemma_map_of_update(entries: Seq<(String, bool)>, i: int, pair: (String, bool))
    requires
        distinct_keys(entries),
        0 <= i < entries.len(),
        pair.0@ == entries[i].0@,
    ensures
        map_of(entries.update(i, pair)) == map_of(entries).insert(pair.0@, pair.1),
    decreases entries.len(),
{
    let updated = entries.update(i, pair);
    if i == entries.len() - 1 {
        assert(updated.drop_last() =~= entries.drop_last());
        assert(updated.last() == pair);
        assert(map_of(updated) == map_of(entries.drop_last()).insert(pair.0@, pair.1));
        assert(map_of(entries.drop_last()).insert(entries.last().0@, entries.last().1).insert(
            pair.0@,
            pair.1,
        ) =~= map_of(entries.drop_last()).insert(pair.0@, pair.1));
    } else {
        assert(updated.drop_last() =~= entries.drop_last().update(i, pair));
        assert(entries.drop_last()[i] == entries[i]);
        assert forall|a: int, b: int|
            0 <= a < b < entries.drop_last().len() implies #[trigger] entries.drop_last()[a].0@
            != #[trigger] entries.drop_last()[b].0@ by {
            assert(entries.drop_last()[a] == entries[a]);
            assert(entries.drop_last()[b] == entries[b]);
        }
        lemma_map_of_update(entries.drop_last(), i, pair);
        assert(updated.last() == entries.last());
        // the last key differs from the updated key, so the two inserts commute
        assert(entries.last().0@ != pair.0@);
        assert(map_of(entries.drop_last()).insert(pair.0@, pair.1).insert(
            entries.last().0@,
            entries.last().1,
        ) =~= map_of(entries.drop_last()).insert(entries.last().0@, entries.last().1).insert(
            pair.0@,
            pair.1,
        ));
    }
}

impl ProgressMap {
    /// All entry keys are pairwise distinct.
    pub closed spec fn wf(&self) -> bool {
        distinct_keys(self.entries@)
    }

    /// An empty mapping.
    pub fn new() -> (m: ProgressMap)
        ensures
            m.wf(),
            m@ == Map::<Seq<char>, bool>::empty(),
    {
        ProgressMap { entries: Vec::new() }
    }

    /// Record `value` for `key`, overwriting any earlier record.
    pub fn set(&mut self, key: &str, value: bool)
        requires
            old(self).wf(),
        ensures
            final(self).wf(),
            final(self)@ == old(self)@.insert(key@, value),
    {
        let owned: String = key.to_owned();
        let mut i: usize = 0;
        while i < self.entries.len()
            invariant
                self == old(self),
                old(self).wf(),
                owned@ == key@,
                i <= self.entries@.len(),
                forall|j: int| 0 <= j < i ==> #[trigger] self.entries@[j].0@ != key@,
            decreases self.entries@.len() - i,
        {
            if self.entries[i].0 == owned {
                self.entries[i].1 = value;
                proof {
                    let entries = old(self).entries@;
                    let pair = self.entries@[i as int];
                    assert(self.entries@ =~= entries.update(i as int, pair));
                    lemma_map_of_update(entries, i as int, pair);
                    assert forall|a: int, b: int|
                        0 <= a < b < self.entries@.len() implies #[trigger] self.entries@[a].0@
                        != #[trigger] self.entries@[b].0@ by {
                        assert(self.entries@[a].0@ == entries[a].0@);
                        assert(self.entries@[b].0@ == entries[b].0@);
                    }
                }
                return ;
            }
            i += 1;
        }
        let pair = (owned, value);
        proof {
            let entries = self.entries@;
            assert(entries.push(pair).drop_last() =~= entries);
            assert forall|a: int, b: int|
                0 <= a < b < entries.push(pair).len() implies #[trigger] entries.push(pair)[a].0@
                != #[trigger] entries.push(pair)[b].0@ by {
                assert(entries.push(pair)[a] == entries[a]);
                if b < entries.len() {
                    assert(entries.push(pair)[b] == entries[b]);
                }
            }
        }
        self.entries.push(pair);
    }

    /// Look up the recorded flag for `key`, if any.
    pub fn get(&self, key: &str) -> (r: Option<bool>)
        requires
            self.wf(),
        ensures
            r == (if self@.contains_key(key@) {
                Some(self@[key@])
            } else {
                None::<bool>
            }),
    {
        proof {
            lemma_map_of_membership(self.entries@, key@);
        }
        let owned: String = key.to_owned();
        let mut i: usize = 0;
        while i < self.entries.len()
            invariant
                self.wf(),
                owned@ == key@,
                i <= self.entries@.len(),
                forall|j: int| 0 <= j < i ==> #[trigger] self.entries@[j].0@ != key@,
                map_of(self.entries@).contains_key(key@) <==> exists|j: int|
                    0 <= j < self.entries@.len() && #[trigger] self.entries@[j].0@ == key@,
            decreases self.entries@.len() - i,
        {
            if self.entries[i].0 == owned {
                proof {
                    lemma_map_of_lookup(self.entries@, i as int);
                }
                return Some(self.entries[i].1);
            }
            i += 1;
        }
        None
    }
}

} // verus!
